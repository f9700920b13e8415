use vstd::prelude::*;
use vstd::string::StrSliceExecFns;
use crate::text::push_char;

pub mod mysql;
pub mod postgres;
pub mod sqlite;

verus! {

/// The body of a quoted literal where each single quote of the raw text is
/// doubled; the escaping used by SQLite and Postgres.
pub open spec fn spec_quote_doubled(s: Seq<char>) -> Seq<char>
    decreases s.len(),
{
    if s.len() == 0 {
        Seq::empty()
    } else {
        spec_quote_doubled(s.drop_last()) + (if s.last() == '\'' {
            seq!['\'', '\'']
        } else {
            seq![s.last()]
        })
    }
}

/// The body of a quoted literal where each single quote of the raw text is
/// preceded by a backslash; the escaping used by MySQL.
pub open spec fn spec_backslash_escaped(s: Seq<char>) -> Seq<char>
    decreases s.len(),
{
    if s.len() == 0 {
        Seq::empty()
    } else {
        spec_backslash_escaped(s.drop_last()) + (if s.last() == '\'' {
            seq!['\\', '\'']
        } else {
            seq![s.last()]
        })
    }
}

/// Appends the quote-doubled escaping of `input` to `s`.
pub(crate) fn append_quote_doubled(s: &mut String, input: &str)
    ensures
        final(s)@ == old(s)@ + spec_quote_doubled(input@),
{
    let n = input.unicode_len();
    for i in 0..n
        invariant
            n == input@.len(),
            s@ == old(s)@ + spec_quote_doubled(input@.take(i as int)),
    {
        let c = input.get_char(i);
        if c == '\'' {
            push_char(s, '\'');
            push_char(s, '\'');
        } else {
            push_char(s, c);
        }
        proof {
            assert(input@.take(i + 1).drop_last() =~= input@.take(i as int));
            assert(input@.take(i + 1).last() == input@[i as int]);
            assert(s@ =~= old(s)@ + spec_quote_doubled(input@.take(i + 1)));
        }
    }
    proof {
        assert(input@.take(input@.len() as int) =~= input@);
    }
}

/// Appends the backslash escaping of `input` to `s`.
pub(crate) fn append_backslash_escaped(s: &mut String, input: &str)
    ensures
        final(s)@ == old(s)@ + spec_backslash_escaped(input@),
{
    let n = input.unicode_len();
    for i in 0..n
        invariant
            n == input@.len(),
            s@ == old(s)@ + spec_backslash_escaped(input@.take(i as int)),
    {
        let c = input.get_char(i);
        if c == '\'' {
            push_char(s, '\\');
            push_char(s, '\'');
        } else {
            push_char(s, c);
        }
        proof {
            assert(input@.take(i + 1).drop_last() =~= input@.take(i as int));
            assert(input@.take(i + 1).last() == input@[i as int]);
            assert(s@ =~= old(s)@ + spec_backslash_escaped(input@.take(i + 1)));
        }
    }
    proof {
        assert(input@.take(input@.len() as int) =~= input@);
    }
}

} // verus!
