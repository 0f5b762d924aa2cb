//! The git URLs that a transfer fetches from and pushes to.
use crate::destination::joined;
use vstd::prelude::*;
use vstd::string::*;

verus! {

pub open spec fn https_scheme() -> Seq<char> {
    seq!['h', 't', 't', 'p', 's', ':', '/', '/']
}

pub open spec fn http_scheme() -> Seq<char> {
    seq!['h', 't', 't', 'p', ':', '/', '/']
}

pub open spec fn starts_with(s: Seq<char>, p: Seq<char>) -> bool {
    p.len() <= s.len() && s.take(p.len() as int) == p
}

/// The length of the `https://` or `http://` that `url` starts with, or 0.
pub open spec fn scheme_len(url: Seq<char>) -> int {
    if starts_with(url, https_scheme()) {
        8
    } else if starts_with(url, http_scheme()) {
        7
    } else {
        0
    }
}

/// `s` up to its first `/`.
pub open spec fn before_slash(s: Seq<char>) -> Seq<char>
    decreases s.len(),
{
    if s.len() == 0 || s[0] == '/' {
        Seq::empty()
    } else {
        seq![s[0]] + before_slash(s.drop_first())
    }
}

/// The host (with its port, if any) of an `http` or `https` URL.
pub open spec fn host_of(url: Seq<char>) -> Seq<char> {
    before_slash(url.skip(scheme_len(url)))
}

/// A web URL that names a host: `http://` or `https://` and at least one
/// character before the next `/`.
pub open spec fn is_web_url(url: Seq<char>) -> bool {
    scheme_len(url) > 0 && host_of(url).len() > 0
}

pub open spec fn oauth_user() -> Seq<char> {
    seq!['o', 'a', 'u', 't', 'h', '2', ':']
}

/// `url` with the user `oauth2` and the password `token` put in after its
/// scheme, so that git authenticates with the token; a URL without an
/// `http` scheme is left as it is.
pub open spec fn with_token(url: Seq<char>, token: Seq<char>) -> Seq<char> {
    let k = scheme_len(url);
    if k == 0 {
        url
    } else {
        url.take(k) + oauth_user() + token + seq!['@'] + url.skip(k)
    }
}

pub open spec fn dot_git() -> Seq<char> {
    seq!['.', 'g', 'i', 't']
}

/// The HTTP URL of the repository at `path` on the instance at `base`.
pub open spec fn http_repo_url(base: Seq<char>, path: Seq<char>) -> Seq<char> {
    joined(base, path) + dot_git()
}

/// The SSH URL of the repository at `path` on the instance at `base`:
/// `git@host:path.git`.
pub open spec fn ssh_repo_url(base: Seq<char>, path: Seq<char>) -> Seq<char> {
    seq!['g', 'i', 't', '@'] + host_of(base) + seq![':'] + path + dot_git()
}

/// Whether `s` starts with `p`.
pub fn has_prefix(s: &str, p: &str) -> (r: bool)
    ensures
        r == starts_with(s@, p@),
{
    let n = s.unicode_len();
    let m = p.unicode_len();
    if m > n {
        return false;
    }
    let mut i: usize = 0;
    while i < m
        invariant
            n == s@.len(),
            m == p@.len(),
            m <= n,
            i <= m,
            forall|j: int| 0 <= j < i ==> s@[j] == p@[j],
        decreases m - i,
    {
        if s.get_char(i) != p.get_char(i) {
            assert(s@.take(m as int)[i as int] != p@[i as int]);
            return false;
        }
        i = i + 1;
    }
    assert(s@.take(m as int) =~= p@);
    true
}

/// The length of the scheme that `url` starts with, 0 where it is neither
/// `https://` nor `http://`.
pub fn scheme_length(url: &str) -> (r: usize)
    ensures
        r == scheme_len(url@),
{
    proof {
        reveal_strlit("https://");
        reveal_strlit("http://");
        assert("https://"@ =~= https_scheme());
        assert("http://"@ =~= http_scheme());
    }
    if has_prefix(url, "https://") {
        8
    } else if has_prefix(url, "http://") {
        7
    } else {
        0
    }
}

proof fn lemma_before_slash(s: Seq<char>, k: int)
    requires
        0 <= k <= s.len(),
        k == s.len() || s[k] == '/',
        forall|j: int| 0 <= j < k ==> s[j] != '/',
    ensures
        before_slash(s) == s.take(k),
    decreases s.len(),
{
    if k == 0 {
        assert(s.take(0) =~= Seq::<char>::empty());
    } else {
        let t = s.drop_first();
        lemma_before_slash(t, k - 1);
        assert(s.take(k) =~= seq![s[0]] + t.take(k - 1));
    }
}

/// The host of the `http` or `https` URL `url`.
pub fn host(url: &str) -> (r: String)
    ensures
        r@ == host_of(url@),
{
    let n = url.unicode_len();
    let start = scheme_length(url);
    let mut k: usize = start;
    while k < n && url.get_char(k) != '/'
        invariant
            n == url@.len(),
            start <= k <= n,
            start == scheme_len(url@),
            forall|j: int| start <= j < k ==> url@[j] != '/',
        decreases n - k,
    {
        k = k + 1;
    }
    proof {
        let rest = url@.skip(start as int);
        lemma_before_slash(rest, k - start);
        assert(rest.take(k - start) =~= url@.subrange(start as int, k as int));
    }
    url.substring_char(start, k).to_owned()
}

/// Whether `url` is an `http` or `https` URL with a host.
pub fn web_url(url: &str) -> (r: bool)
    ensures
        r == is_web_url(url@),
{
    scheme_length(url) > 0 && host(url).unicode_len() > 0
}

/// `url` carrying `token` as its password, for git over HTTP.
pub fn token_url(url: &str, token: &str) -> (r: String)
    ensures
        r@ == with_token(url@, token@),
{
    let n = url.unicode_len();
    let k = scheme_length(url);
    if k == 0 {
        return url.to_owned();
    }
    let mut r = url.substring_char(0, k).to_owned();
    r.append("oauth2:");
    r.append(token);
    r.append("@");
    r.append(url.substring_char(k, n));
    proof {
        reveal_strlit("oauth2:");
        reveal_strlit("@");
        assert("oauth2:"@ =~= oauth_user());
        assert(url@.subrange(0, k as int) =~= url@.take(k as int));
        assert(url@.subrange(k as int, n as int) =~= url@.skip(k as int));
        assert(r@ =~= with_token(url@, token@));
    }
    r
}

/// The HTTP URL of the repository at `path` on the instance at `base`.
pub fn http_url(base: &str, path: &str) -> (r: String)
    ensures
        r@ == http_repo_url(base@, path@),
{
    let mut r = crate::destination::join_path(base, path);
    r.append(".git");
    proof {
        reveal_strlit(".git");
        assert(".git"@ =~= dot_git());
    }
    r
}

/// The SSH URL of the repository at `path` on the instance at `base`.
pub fn ssh_url(base: &str, path: &str) -> (r: String)
    ensures
        r@ == ssh_repo_url(base@, path@),
{
    let mut r = "git@".to_owned();
    let h = host(base);
    r.append(h.as_str());
    r.append(":");
    r.append(path);
    r.append(".git");
    proof {
        reveal_strlit("git@");
        reveal_strlit(":");
        reveal_strlit(".git");
        assert(".git"@ =~= dot_git());
        assert(r@ =~= ssh_repo_url(base@, path@));
    }
    r
}

} // verus!
