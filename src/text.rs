use vstd::prelude::*;
use vstd::string::{StrSliceExecFns, StringExecFns};

verus! {

/// The text of each string of `v`.
pub open spec fn texts(v: Seq<String>) -> Seq<Seq<char>> {
    v.map_values(|s: String| s@)
}

/// Whether `s` begins with `p`, character by character.
pub open spec fn has_prefix(s: Seq<char>, p: Seq<char>) -> bool {
    p.len() <= s.len() && s.subrange(0, p.len() as int) == p
}

/// `rel` placed under `root`, with one separator between them.
pub open spec fn joined(root: Seq<char>, rel: Seq<char>) -> Seq<char> {
    if root.len() == 0 {
        rel
    } else if root.last() == '/' {
        root + rel
    } else {
        root + seq!['/'] + rel
    }
}

/// A remote url with the structural prefix taken off: the node's path
/// relative to a destination root.
pub open spec fn relative_path(url: Seq<char>, prefix: Seq<char>) -> Seq<char> {
    url.subrange(prefix.len() as int, url.len() as int)
}

/// Where the node at `url` lives under the destination `root`.
pub open spec fn local_path(url: Seq<char>, prefix: Seq<char>, root: Seq<char>) -> Seq<char> {
    joined(root, relative_path(url, prefix))
}

/// Returns whether `s` begins with `p`.
pub fn starts_with(s: &str, p: &str) -> (r: bool)
    ensures
        r == has_prefix(s@, p@),
{
    let n = s.unicode_len();
    let m = p.unicode_len();
    if m > n {
        return false;
    }
    let mut i: usize = 0;
    while i < m
        invariant
            m == p@.len(),
            n == s@.len(),
            m <= n,
            i <= m,
            forall|k: int| 0 <= k < i ==> s@[k] == p@[k],
        decreases m - i,
    {
        if s.get_char(i) != p.get_char(i) {
            assert(s@.subrange(0, m as int)[i as int] != p@[i as int]);
            return false;
        }
        i = i + 1;
    }
    assert(s@.subrange(0, m as int) =~= p@);
    true
}

/// Returns whether `a` and `b` hold the same characters.
pub fn same_text(a: &str, b: &str) -> (r: bool)
    ensures
        r == (a@ == b@),
{
    let r = a.unicode_len() == b.unicode_len() && starts_with(a, b);
    assert(a@.subrange(0, a@.len() as int) =~= a@);
    if r {
        assert(a@ =~= b@.subrange(0, b@.len() as int));
    }
    r
}

/// The part of `s` after the prefix `p`, or `None` where `s` does not begin
/// with `p`.
pub fn strip_prefix(s: &str, p: &str) -> (r: Option<String>)
    ensures
        r is Some <==> has_prefix(s@, p@),
        r is Some ==> r->0@ == s@.subrange(p@.len() as int, s@.len() as int),
{
    if starts_with(s, p) {
        let n = s.unicode_len();
        let m = p.unicode_len();
        Some(s.substring_char(m, n).to_owned())
    } else {
        None
    }
}

/// `rel` joined under the directory `root`.
pub fn join_path(root: &str, rel: &str) -> (r: String)
    ensures
        r@ == joined(root@, rel@),
{
    let n = root.unicode_len();
    let mut out = root.to_owned();
    if n == 0 {
        return rel.to_owned();
    }
    if root.get_char(n - 1) != '/' {
        out.append("/");
        proof {
            reveal_strlit("/");
        }
    }
    out.append(rel);
    out
}

/// A url made of the structural prefix and a relative path maps to that
/// relative path, placed under whatever destination root is given.
pub proof fn lemma_prefix_stripped(prefix: Seq<char>, rel: Seq<char>, root: Seq<char>)
    ensures
        has_prefix(prefix + rel, prefix),
        relative_path(prefix + rel, prefix) == rel,
        local_path(prefix + rel, prefix, root) == joined(root, rel),
{
    assert((prefix + rel).subrange(0, prefix.len() as int) =~= prefix);
    assert(relative_path(prefix + rel, prefix) =~= rel);
}

/// The local path of the remote `url` under `root`, or `None` where the url
/// lacks the structural prefix.
pub fn local_path_of(url: &str, prefix: &str, root: &str) -> (r: Option<String>)
    ensures
        r is Some <==> has_prefix(url@, prefix@),
        r is Some ==> r->0@ == local_path(url@, prefix@, root@),
{
    match strip_prefix(url, prefix) {
        Some(rel) => Some(join_path(root, rel.as_str())),
        None => None,
    }
}

} // verus!
