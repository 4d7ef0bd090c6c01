//! Paths held as text, joined the way a Unix path is.
use vstd::prelude::*;
use crate::text::{push_char, push_str};

verus! {

pub open spec fn absolute(p: Seq<char>) -> bool {
    p.len() > 0 && p[0] == '/'
}

/// `rel` under `base`: an absolute `rel` replaces `base`; otherwise one
/// separator goes between them unless `base` is empty or ends in one.
pub open spec fn joined(base: Seq<char>, rel: Seq<char>) -> Seq<char> {
    if absolute(rel) {
        rel
    } else if base.len() == 0 || base.last() == '/' {
        base + rel
    } else {
        base + "/"@ + rel
    }
}

pub open spec fn opt_model(o: Option<String>) -> Option<Seq<char>> {
    match o {
        Some(s) => Some(s@),
        None => None,
    }
}

pub fn is_absolute(p: &str) -> (r: bool)
    ensures
        r == absolute(p@),
{
    p.unicode_len() > 0 && p.get_char(0) == '/'
}

pub fn join_path(base: &str, rel: &str) -> (r: String)
    ensures
        r@ == joined(base@, rel@),
{
    let mut out = String::new();
    if is_absolute(rel) {
        push_str(&mut out, rel);
        return out;
    }
    push_str(&mut out, base);
    let n = base.unicode_len();
    if n > 0 && base.get_char(n - 1) != '/' {
        push_char(&mut out, '/');
        proof {
            reveal_strlit("/");
            assert(base@.push('/') =~= base@ + "/"@);
        }
    }
    push_str(&mut out, rel);
    out
}

} // verus!
