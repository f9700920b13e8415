use vstd::prelude::*;
use crate::db_specific::append_backslash_escaped;
use crate::db_specific::spec_backslash_escaped;
use crate::text::push_char;

verus! {

/// The MySQL string literal for a raw text: the text with every single
/// quote preceded by a backslash, wrapped in single quotes.
pub open spec fn spec_fmt(s: Seq<char>) -> Seq<char> {
    seq!['\''] + spec_backslash_escaped(s) + seq!['\'']
}

/// Formats the given input to a escaped mariadb string.
pub fn fmt(input: &str) -> (r: String)
    ensures
        r@ == spec_fmt(input@),
{
    let mut s = String::new();
    push_char(&mut s, '\'');
    append_backslash_escaped(&mut s, input);
    push_char(&mut s, '\'');
    proof {
        assert(s@ =~= spec_fmt(input@));
    }
    s
}

} // verus!
