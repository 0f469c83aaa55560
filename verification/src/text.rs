//! Text sanitisation for a display font without a degree sign.

use vstd::prelude::*;
use vstd::std_specs::iter::IteratorSpec;

verus! {

/// The degree sign, which the display font cannot draw.
pub const DEGREE_SIGN: char = '\u{b0}';

/// The character drawn in place of [`DEGREE_SIGN`].
pub const SUBSTITUTE: char = '`';

/// One character as the display shows it.
pub open spec fn sanitized_char(c: char) -> char {
    if c == DEGREE_SIGN {
        SUBSTITUTE
    } else {
        c
    }
}

/// A text as the display shows it: every degree sign replaced, position by
/// position, and every other character kept.
pub open spec fn sanitized(s: Seq<char>) -> Seq<char> {
    Seq::new(s.len(), |i: int| sanitized_char(s[i]))
}

/// `String::push` of std appends one character: the string afterwards is
/// the string before, followed by `c`.
pub assume_specification[ String::push ](s: &mut String, c: char)
    ensures
        final(s)@ == old(s)@.push(c),
;

/// Replaces every degree sign in `s` by [`SUBSTITUTE`].
pub fn sanitize(s: &str) -> (r: String)
    ensures
        r@ == sanitized(s@),
{
    broadcast use vstd::string::group_string_axioms;
    let mut out = String::new();
    let mut it = s.chars();
    let ghost mut done: Seq<char> = Seq::empty();
    loop
        invariant
            it.obeys_prophetic_iter_laws(),
            it.decrease() is Some,
            done + it.remaining() == s@,
            out@ == sanitized(done),
        ensures
            out@ == sanitized(s@),
        decreases it.decrease()->0,
    {
        match it.next() {
            Some(c) => {
                out.push(if c == DEGREE_SIGN { SUBSTITUTE } else { c });
                proof {
                    done = done.push(c);
                    assert(done + it.remaining() =~= s@);
                }
            },
            None => {
                assert(done =~= s@);
                break;
            },
        }
    }
    out
}

} // verus!
