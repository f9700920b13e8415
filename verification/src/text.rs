use vstd::prelude::*;
use vstd::string::StringExecFns;

verus! {

/// Relies on std's String::push: it appends exactly the given character.
#[verifier::external_body]
pub(crate) fn push_char(s: &mut String, c: char)
    ensures
        final(s)@ == old(s)@.push(c),
{
    s.push(c);
}

/// The character for a single decimal digit.
pub open spec fn spec_digit_char(d: int) -> char {
    if d == 0 {
        '0'
    } else if d == 1 {
        '1'
    } else if d == 2 {
        '2'
    } else if d == 3 {
        '3'
    } else if d == 4 {
        '4'
    } else if d == 5 {
        '5'
    } else if d == 6 {
        '6'
    } else if d == 7 {
        '7'
    } else if d == 8 {
        '8'
    } else {
        '9'
    }
}

/// The decimal representation of a natural number, most significant
/// digit first, with no leading zeros (except for zero itself).
pub open spec fn spec_dec_digits(n: nat) -> Seq<char>
    decreases n,
{
    if n < 10 {
        seq![spec_digit_char(n as int)]
    } else {
        spec_dec_digits(n / 10).push(spec_digit_char((n % 10) as int))
    }
}

fn digit_char(d: usize) -> (c: char)
    requires
        d < 10,
    ensures
        c == spec_digit_char(d as int),
{
    if d == 0 {
        '0'
    } else if d == 1 {
        '1'
    } else if d == 2 {
        '2'
    } else if d == 3 {
        '3'
    } else if d == 4 {
        '4'
    } else if d == 5 {
        '5'
    } else if d == 6 {
        '6'
    } else if d == 7 {
        '7'
    } else if d == 8 {
        '8'
    } else {
        '9'
    }
}

/// Appends the decimal representation of `n` to `s`.
pub(crate) fn append_dec(s: &mut String, n: usize)
    ensures
        final(s)@ == old(s)@ + spec_dec_digits(n as nat),
    decreases n,
{
    if n < 10 {
        push_char(s, digit_char(n));
        assert(s@ =~= old(s)@ + spec_dec_digits(n as nat));
    } else {
        append_dec(s, n / 10);
        push_char(s, digit_char(n % 10));
        assert(s@ =~= old(s)@ + spec_dec_digits(n as nat));
    }
}

/// The text of a name list as it appears in a column list or a RETURNING
/// clause: every name wrapped in the quote text `q` (which may be empty),
/// with `", "` between consecutive names.
pub open spec fn spec_quoted_join(names: Seq<Seq<char>>, q: Seq<char>) -> Seq<char>
    decreases names.len(),
{
    if names.len() == 0 {
        Seq::empty()
    } else if names.len() == 1 {
        q + names[0] + q
    } else {
        spec_quoted_join(names.drop_last(), q) + ", "@ + q + names.last() + q
    }
}

/// Appends the quoted, comma-separated name list to `s`.
pub(crate) fn append_quoted_list(s: &mut String, names: &Vec<String>, q: &str)
    ensures
        final(s)@ == old(s)@ + spec_quoted_join(
            names@.map_values(|n: String| n@),
            q@,
        ),
{
    let ghost views = names@.map_values(|n: String| n@);
    for i in 0..names.len()
        invariant
            views == names@.map_values(|n: String| n@),
            s@ == old(s)@ + spec_quoted_join(views.take(i as int), q@),
    {
        if i != 0 {
            s.append(", ");
        }
        s.append(q);
        s.append(names[i].as_str());
        s.append(q);
        proof {
            assert(views.take(i + 1).drop_last() =~= views.take(i as int));
            assert(views.take(i + 1).last() == views[i as int]);
            assert(s@ =~= old(s)@ + spec_quoted_join(views.take(i + 1), q@));
        }
    }
    proof {
        assert(views.take(names@.len() as int) =~= views);
    }
}

} // verus!
