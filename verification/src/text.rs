//! Plain-text helpers shared by the widgets: character-cell conversion and
//! width-limited truncation.

use vstd::prelude::*;
use vstd::std_specs::iter::IteratorSpec;

verus! {

/// The characters of `s`, in order.
pub fn str_chars(s: &str) -> (r: Vec<char>)
    ensures
        r@ == s@,
{
    let mut it = s.chars();
    let mut out: Vec<char> = Vec::new();
    proof {
        assert(out@ + it.remaining() =~= s@);
    }
    loop
        invariant_except_break
            it.obeys_prophetic_iter_laws(),
            it.decrease() is Some,
            out@ + it.remaining() == s@,
        ensures
            out@ == s@,
        decreases it.decrease()->0,
    {
        let ghost prev = it.remaining();
        let ghost sofar = out@;
        match it.next() {
            Some(c) => {
                out.push(c);
                proof {
                    assert(out@ + it.remaining() =~= sofar + prev);
                }
            },
            None => {
                proof {
                    assert(out@ =~= s@);
                }
                break;
            },
        }
    }
    out
}

/// Relies on `String`'s `FromIterator<char>` (through `Iterator::collect`):
/// the string whose characters are those of `v`, in order.
#[verifier::external_body]
pub fn chars_to_string(v: &Vec<char>) -> (r: String)
    ensures
        r@ == v@,
{
    v.iter().collect()
}

/// `s` cut to at most `w` character cells; when it does not fit, the last
/// kept cell becomes an ellipsis.
pub open spec fn trunc_ellipsis(s: Seq<char>, w: nat) -> Seq<char> {
    if s.len() <= w {
        s
    } else if w == 0 {
        Seq::empty()
    } else {
        s.take(w - 1).push('\u{2026}')
    }
}

/// Law: truncation keeps its word — the result never exceeds `w` cells,
/// and a string that already fits comes through unchanged.
pub proof fn lemma_trunc_fits(s: Seq<char>, w: nat)
    ensures
        trunc_ellipsis(s, w).len() <= w,
        s.len() <= w ==> trunc_ellipsis(s, w) == s,
{
}

/// Truncate `s` to at most `w` cells, marking a cut with an ellipsis.
pub fn truncate_ellipsis(s: &String, w: usize) -> (r: String)
    ensures
        r@ == trunc_ellipsis(s@, w as nat),
{
    let cs = str_chars(s.as_str());
    if cs.len() <= w {
        s.clone()
    } else if w == 0 {
        String::new()
    } else {
        let mut out: Vec<char> = Vec::new();
        let mut i: usize = 0;
        while i < w - 1
            invariant
                i <= w - 1 < cs@.len(),
                cs@ == s@,
                out@ == s@.take(i as int),
            decreases w - 1 - i,
        {
            out.push(cs[i]);
            proof {
                assert(s@.take(i + 1) =~= s@.take(i as int).push(s@[i as int]));
            }
            i = i + 1;
        }
        out.push('\u{2026}');
        chars_to_string(&out)
    }
}

} // verus!
