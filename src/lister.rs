//! Paging through the projects of the source instance.
//!
//! The lister decides which page to ask for next and what to keep of each
//! page that comes back; the request itself is made by its caller.
use crate::project::ProjectDescriptor;
use vstd::prelude::*;
use vstd::string::*;

verus! {

/// The page size used when none is configured.
pub const DEFAULT_PER_PAGE: u32 = 100;

/// One request for a page of projects, with the scoping passed to the
/// source instance as it is.
pub struct PageRequest {
    /// Pages are numbered from 1.
    pub page: u64,
    pub per_page: u32,
    pub only_owned: bool,
    pub only_membership: bool,
}

/// The running count after a page of `n` projects arrives, when `yielded`
/// had been handed out before it.
pub open spec fn after_page(limit: Option<usize>, yielded: nat, n: nat) -> nat {
    match limit {
        None => yielded + n,
        Some(l) => if yielded >= l {
            yielded
        } else if yielded + n <= l {
            yielded + n
        } else {
            l as nat
        },
    }
}

/// The count after pages of the sizes `pages` arrive in turn, starting
/// from `yielded`.
pub open spec fn listed_from(limit: Option<usize>, yielded: nat, pages: Seq<nat>) -> nat
    decreases pages.len(),
{
    if pages.len() == 0 {
        yielded
    } else {
        listed_from(limit, after_page(limit, yielded, pages[0]), pages.drop_first())
    }
}

/// Whatever pages the source instance returns, however many and however
/// large, a listing with a total limit `l` hands out at most `l` projects.
pub proof fn lemma_listing_respects_limit(l: usize, yielded: nat, pages: Seq<nat>)
    requires
        yielded <= l,
    ensures
        listed_from(Some(l), yielded, pages) <= l,
    decreases pages.len(),
{
    if pages.len() > 0 {
        lemma_listing_respects_limit(l, after_page(Some(l), yielded, pages[0]), pages.drop_first());
    }
}

pub struct ProjectLister {
    pub per_page: u32,
    pub limit: Option<usize>,
    pub only_owned: bool,
    pub only_membership: bool,
    /// The number of the page to ask for next.
    pub next_page: u64,
    /// How many projects have been handed out so far.
    pub yielded: usize,
    /// The source instance reported that no page follows.
    pub exhausted: bool,
}

impl ProjectLister {
    pub open spec fn wf(&self) -> bool {
        &&& self.next_page >= 1
        &&& self.limit matches Some(l) ==> self.yielded <= l
    }

    /// Whether the limit has been reached.
    pub open spec fn limit_reached(&self) -> bool {
        self.limit matches Some(l) && self.yielded >= l
    }

    pub open spec fn finished(&self) -> bool {
        self.exhausted || self.limit_reached()
    }

    /// A listing that starts at the first page, with the default page size
    /// where none is given.
    pub fn new(per_page: Option<u32>, limit: Option<usize>, only_owned: bool, only_membership: bool) -> (r: Self)
        ensures
            r.wf(),
            r.per_page == (match per_page {
                Some(n) => n,
                None => DEFAULT_PER_PAGE,
            }),
            r.limit == limit,
            r.only_owned == only_owned,
            r.only_membership == only_membership,
            r.next_page == 1,
            r.yielded == 0,
            !r.exhausted,
    {
        let per_page = match per_page {
            Some(n) => n,
            None => DEFAULT_PER_PAGE,
        };
        ProjectLister {
            per_page,
            limit,
            only_owned,
            only_membership,
            next_page: 1,
            yielded: 0,
            exhausted: false,
        }
    }

    /// Whether the limit has been reached.
    pub fn is_limit_reached(&self) -> (r: bool)
        ensures
            r == self.limit_reached(),
    {
        match self.limit {
            Some(l) => self.yielded >= l,
            None => false,
        }
    }

    /// The page to ask for next, or `None` once the listing is over: the
    /// source instance has no further page or the limit has been reached.
    pub fn next_request(&self) -> (r: Option<PageRequest>)
        ensures
            r is None <==> self.finished(),
            r matches Some(q) ==> q.page == self.next_page && q.per_page == self.per_page
                && q.only_owned == self.only_owned && q.only_membership == self.only_membership,
    {
        if self.exhausted || self.is_limit_reached() {
            None
        } else {
            Some(PageRequest {
                page: self.next_page,
                per_page: self.per_page,
                only_owned: self.only_owned,
                only_membership: self.only_membership,
            })
        }
    }

    /// Takes in the page that the last request returned, with whether the
    /// source instance reports a next page, and returns the projects of it
    /// to hand out: all of them, or as many as the limit still allows. A
    /// page that comes after the listing is over is dropped.
    pub fn receive_page(&mut self, page: Vec<ProjectDescriptor>, has_next: bool) -> (r: Vec<ProjectDescriptor>)
        requires
            old(self).wf(),
        ensures
            final(self).wf(),
            final(self).per_page == old(self).per_page,
            final(self).limit == old(self).limit,
            final(self).only_owned == old(self).only_owned,
            final(self).only_membership == old(self).only_membership,
            old(self).finished() ==> r@.len() == 0 && *final(self) == *old(self),
            !old(self).finished() ==> {
                &&& r@ == page@.take(r@.len() as int)
                &&& old(self).limit is Some ==> final(self).yielded == old(self).yielded + r@.len()
                &&& old(self).limit is Some ==> final(self).yielded == after_page(
                    old(self).limit,
                    old(self).yielded as nat,
                    page@.len(),
                )
                &&& old(self).limit is None ==> r@ == page@
                &&& final(self).exhausted == (!has_next || old(self).next_page == u64::MAX)
                &&& final(self).next_page == (if old(self).next_page == u64::MAX {
                    old(self).next_page
                } else {
                    (old(self).next_page + 1) as u64
                })
            },
    {
        if self.exhausted || self.is_limit_reached() {
            return Vec::new();
        }
        let mut page = page;
        match self.limit {
            Some(l) => {
                let room = l - self.yielded;
                if page.len() > room {
                    page.truncate(room);
                }
                self.yielded = self.yielded + page.len();
            },
            None => {
                self.yielded = self.yielded.saturating_add(page.len());
            },
        }
        match self.next_page.checked_add(1) {
            Some(n) => {
                self.next_page = n;
                self.exhausted = !has_next;
            },
            None => {
                self.exhausted = true;
            },
        }
        page
    }
}

/// Whether the source instance's next-page header value names a page: the
/// value is empty on the last page and holds the page number otherwise.
pub fn reports_next_page(value: &str) -> (r: bool)
    ensures
        r == exists|i: int| 0 <= i < value@.len() && '0' <= #[trigger] value@[i] <= '9',
{
    let n = value.unicode_len();
    let mut i: usize = 0;
    while i < n
        invariant
            n == value@.len(),
            i <= n,
            forall|j: int| 0 <= j < i ==> !('0' <= #[trigger] value@[j] <= '9'),
        decreases n - i,
    {
        let c = value.get_char(i);
        if '0' <= c && c <= '9' {
            return true;
        }
        i = i + 1;
    }
    false
}

} // verus!
