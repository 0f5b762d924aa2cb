//! Where a mirrored project goes: a local directory, a path under the
//! backup group, and the backup subgroups that must exist first.
use vstd::prelude::*;
use vstd::string::*;

verus! {

/// The last component of a slash-delimited path: everything after its last
/// `/`, or the whole path where it has none.
pub open spec fn leaf(s: Seq<char>) -> Seq<char>
    decreases s.len(),
{
    if s.len() == 0 {
        s
    } else if s.last() == '/' {
        Seq::empty()
    } else {
        leaf(s.drop_last()).push(s.last())
    }
}

/// `rel` placed under the directory `root`, with exactly one `/` added
/// between them where `root` does not already end in one.
pub open spec fn joined(root: Seq<char>, rel: Seq<char>) -> Seq<char> {
    if root.len() == 0 || root.last() == '/' {
        root + rel
    } else {
        root + seq!['/'] + rel
    }
}

/// The proper prefixes of `s` that end just before a `/`, shortest first:
/// the enclosing groups of a namespace path.
pub open spec fn enclosing(s: Seq<char>) -> Seq<Seq<char>>
    decreases s.len(),
{
    if s.len() == 0 {
        Seq::empty()
    } else if s.last() == '/' {
        enclosing(s.drop_last()).push(s.drop_last())
    } else {
        enclosing(s.drop_last())
    }
}

/// Where the local mirror of the project at `path` lives under `root`.
pub open spec fn local_target(root: Seq<char>, path: Seq<char>, hierarchy: bool) -> Seq<char> {
    if hierarchy {
        joined(root, path)
    } else {
        joined(root, leaf(path))
    }
}

proof fn lemma_leaf_suffix(s: Seq<char>, k: int)
    requires
        0 <= k <= s.len(),
        k == 0 || s[k - 1] == '/',
        forall|j: int| k <= j < s.len() ==> s[j] != '/',
    ensures
        leaf(s) == s.subrange(k, s.len() as int),
    decreases s.len(),
{
    if s.len() == k {
        if k > 0 {
            assert(s.last() == '/');
        }
        assert(s.subrange(k, s.len() as int) =~= Seq::<char>::empty());
    } else {
        let t = s.drop_last();
        lemma_leaf_suffix(t, k);
        assert(s.subrange(k, s.len() as int) =~= t.subrange(k, t.len() as int).push(s.last()));
    }
}

/// The last component of the namespace path `path`.
pub fn leaf_name(path: &str) -> (r: String)
    ensures
        r@ == leaf(path@),
{
    let n = path.unicode_len();
    let mut k: usize = n;
    while k > 0 && path.get_char(k - 1) != '/'
        invariant
            n == path@.len(),
            k <= n,
            forall|j: int| k <= j < n ==> path@[j] != '/',
        decreases k,
    {
        k = k - 1;
    }
    proof {
        lemma_leaf_suffix(path@, k as int);
    }
    path.substring_char(k, n).to_owned()
}

/// `rel` placed under the directory `root`.
pub fn join_path(root: &str, rel: &str) -> (r: String)
    ensures
        r@ == joined(root@, rel@),
{
    let n = root.unicode_len();
    let mut r = root.to_owned();
    if n > 0 && root.get_char(n - 1) != '/' {
        r.append("/");
        proof {
            reveal_strlit("/");
        }
    }
    r.append(rel);
    r
}

/// The local directory that the project at `path` is mirrored to: its whole
/// namespace path under `root`, or only its leaf name when the hierarchy is
/// not kept.
pub fn local_path(root: &str, path: &str, hierarchy: bool) -> (r: String)
    ensures
        r@ == local_target(root@, path@, hierarchy),
{
    if hierarchy {
        join_path(root, path)
    } else {
        let l = leaf_name(path);
        join_path(root, l.as_str())
    }
}

/// The path on the backup instance that the project at `path` is pushed to:
/// the same namespace path under the backup group.
pub fn backup_path(group: &str, path: &str) -> (r: String)
    ensures
        r@ == joined(group@, path@),
{
    join_path(group, path)
}

/// The groups that enclose the project at `path`, outermost first: for
/// `a/b/c` they are `a` and `a/b`.
pub fn enclosing_groups(path: &str) -> (r: Vec<String>)
    ensures
        r@.len() == enclosing(path@).len(),
        forall|i: int| 0 <= i < r@.len() ==> #[trigger] r@[i]@ == enclosing(path@)[i],
{
    let n = path.unicode_len();
    let mut r: Vec<String> = Vec::new();
    let mut i: usize = 0;
    while i < n
        invariant
            n == path@.len(),
            i <= n,
            r@.len() == enclosing(path@.take(i as int)).len(),
            forall|j: int| 0 <= j < r@.len() ==> #[trigger] r@[j]@ == enclosing(path@.take(i as int))[j],
        decreases n - i,
    {
        let ghost before = path@.take(i as int);
        let ghost after = path@.take(i + 1);
        assert(after.drop_last() =~= before);
        if path.get_char(i) == '/' {
            r.push(path.substring_char(0, i).to_owned());
            assert(path@.subrange(0, i as int) =~= before);
        }
        i = i + 1;
    }
    assert(path@.take(n as int) =~= path@);
    r
}

} // verus!
