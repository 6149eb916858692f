//! Joining file-system paths, written as text.
use vstd::prelude::*;
use crate::text::{chars_of, push_chars};

verus! {

/// `base` joined with `child` as `Path::join` joins them on Unix: an
/// absolute `child` (one that starts with `/`) replaces `base`; otherwise a
/// `/` separates the two, unless `base` is empty or already ends with `/`.
pub open spec fn join_path(base: Seq<char>, child: Seq<char>) -> Seq<char> {
    if child.len() > 0 && child[0] == '/' {
        child
    } else if base.len() == 0 || base.last() == '/' {
        base + child
    } else {
        base + seq!['/'] + child
    }
}

/// Joins two paths as `Path::join` does on Unix.
pub fn join(base: &str, child: &str) -> (r: String)
    ensures
        r@ == join_path(base@, child@),
{
    let bv = chars_of(base);
    let cv = chars_of(child);
    if cv.len() > 0 && cv[0] == '/' {
        let mut r = String::new();
        push_chars(&mut r, cv.as_slice());
        assert(r@ =~= join_path(base@, child@));
        return r;
    }
    let mut r = String::new();
    push_chars(&mut r, bv.as_slice());
    if bv.len() > 0 && bv[bv.len() - 1] != '/' {
        r.append("/");
        proof {
            reveal_strlit("/");
        }
    }
    push_chars(&mut r, cv.as_slice());
    assert(r@ =~= join_path(base@, child@));
    r
}

} // verus!
