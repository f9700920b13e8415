use vstd::prelude::*;
use crate::db_specific::append_quote_doubled;
use crate::db_specific::spec_quote_doubled;
use crate::text::push_char;

verus! {

/// The Postgres string literal for a raw text: the text with every single
/// quote doubled, wrapped in single quotes.
pub open spec fn spec_fmt(s: Seq<char>) -> Seq<char> {
    seq!['\''] + spec_quote_doubled(s) + seq!['\'']
}

/// Formats the given input to an escaped postgres string.
pub fn fmt(input: &str) -> (r: String)
    ensures
        r@ == spec_fmt(input@),
{
    let mut s = String::new();
    push_char(&mut s, '\'');
    append_quote_doubled(&mut s, input);
    push_char(&mut s, '\'');
    proof {
        assert(s@ =~= spec_fmt(input@));
    }
    s
}

} // verus!
