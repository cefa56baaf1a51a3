//! The textual form of a vector.
//!
//! A component is printed by whoever holds it as a number. This module
//! lays three printed components out as `[x, y, z]`.
use vstd::prelude::*;

verus! {

/// `String::push_str` of the standard library appends a string slice to a
/// string: afterwards the string holds what it held, followed by the
/// characters of the slice.
pub assume_specification[ String::push_str ](s: &mut String, string: &str)
    ensures
        final(s)@ == old(s)@ + string@,
;

/// The text of a vector whose components print as `x`, `y` and `z`: the
/// three in order, separated by a comma and a space, in square brackets.
pub open spec fn bracketed(x: Seq<char>, y: Seq<char>, z: Seq<char>) -> Seq<char> {
    seq!['['] + x + seq![',', ' '] + y + seq![',', ' '] + z + seq![']']
}

/// Lays out the printed components of a vector as `[x, y, z]`.
pub fn render(x: &str, y: &str, z: &str) -> (s: String)
    ensures
        s@ == bracketed(x@, y@, z@),
{
    let mut s = String::new();
    s.push_str("[");
    s.push_str(x);
    s.push_str(", ");
    s.push_str(y);
    s.push_str(", ");
    s.push_str(z);
    s.push_str("]");
    proof {
        reveal_strlit("[");
        reveal_strlit(", ");
        reveal_strlit("]");
        assert("["@ =~= seq!['[']);
        assert(", "@ =~= seq![',', ' ']);
        assert("]"@ =~= seq![']']);
        assert(s@ =~= bracketed(x@, y@, z@));
    }
    s
}

} // verus!
