//! File-system paths written as text, joined and cut as `std::path` does on Unix.
use vstd::prelude::*;
use vstd::string::*;
use crate::text::chars_of;

verus! {

/// `Path::new(base).join(rel)` on Unix: an absolute `rel` replaces `base`;
/// otherwise one `/` separates the two unless `base` is empty or already ends
/// in one.
pub open spec fn joined(base: Seq<char>, rel: Seq<char>) -> Seq<char> {
    if rel.len() > 0 && rel[0] == '/' {
        rel
    } else if base.len() > 0 && base.last() != '/' {
        base + seq!['/'] + rel
    } else {
        base + rel
    }
}

/// `Path::new(base).join(rel)`, as text.
pub fn join_path(base: &str, rel: &str) -> (r: String)
    ensures
        r@ == joined(base@, rel@),
{
    let rv = chars_of(rel);
    if rv.len() > 0 && rv[0] == '/' {
        return rel.to_owned();
    }
    let bv = chars_of(base);
    let mut r = base.to_owned();
    if bv.len() > 0 && bv[bv.len() - 1] != '/' {
        proof {
            reveal_strlit("/");
        }
        r.append("/");
    }
    r.append(rel);
    assert(bv@.len() > 0 ==> base@.last() == bv@[bv@.len() - 1]);
    r
}

/// What `Path::parent` gives for the path written by `p`, as text.
pub uninterp spec fn path_parent(p: Seq<char>) -> Option<Seq<char>>;

pub open spec fn opt_string_view(o: Option<String>) -> Option<Seq<char>> {
    match o {
        Some(s) => Some(s@),
        None => None,
    }
}

/// Calls `std::path::Path::parent` on the path written by `p`; the contract
/// says only that the result is the one `path_parent` names for `p`.
#[verifier::external_body]
fn parent_of(p: &str) -> (r: Option<String>)
    ensures
        opt_string_view(r) == path_parent(p@),
{
    match std::path::Path::new(p).parent() {
        Some(q) => Some(q.to_string_lossy().into_owned()),
        None => None,
    }
}

/// The directory two levels above `exe` (an application bundle's `Contents`
/// directory when `exe` is the program inside `Contents/MacOS`).
pub open spec fn grandparent(exe: Seq<char>) -> Option<Seq<char>> {
    match path_parent(exe) {
        Some(p) => path_parent(p),
        None => None,
    }
}

/// `exe.parent().and_then(|p| p.parent())`, as text.
pub fn grandparent_dir(exe: &str) -> (r: Option<String>)
    ensures
        opt_string_view(r) == grandparent(exe@),
{
    match parent_of(exe) {
        Some(p) => parent_of(p.as_str()),
        None => None,
    }
}

} // verus!
