use vstd::prelude::*;
use vstd::string::StringExecFns;
use crate::db_specific;
use crate::on_conflict::OnConflict;
use crate::text::spec_dec_digits;
use crate::text::spec_quoted_join;
use crate::value::is_bound;
use crate::value::NullType;
use crate::value::Value;

verus! {

/// The SQL dialect a statement is rendered for.
#[derive(Copy, Clone, Debug, PartialEq, Eq, Structural)]
pub enum Dialect {
    /// SQLite syntax.
    SQLite,
    /// MySQL / MariaDB syntax.
    MySQL,
    /// Postgres syntax.
    Postgres,
}

/**
Representation of the data of a INSERT operation in SQL.
*/
#[derive(Debug)]
pub struct InsertData {
    /// Name of the table to insert into; emitted as the caller wrote it.
    pub into_clause: String,
    /// Ordered column names; empty means a "default values" insert.
    pub columns: Vec<String>,
    /// The value grid, one inner vector per row, aligned with `columns`.
    pub row_values: Vec<Vec<Value>>,
    /// Accumulator of the values to bind; starts empty.
    pub lookup: Vec<Value>,
    /// What happens when the insert violates a constraint.
    pub on_conflict: OnConflict,
    /// Optional ordered list of column names to return.
    pub returning_clause: Option<Vec<String>>,
}

/// One fragment of a rendered statement: either literal text or the
/// placeholder for the bind parameter with the given 1-based number.
pub enum Piece {
    /// Literal statement text.
    Lit(Seq<char>),
    /// A placeholder; the payload is the 1-based position of its value in
    /// the parameter list.
    Hole(int),
}

/// The text of one fragment. SQLite and MySQL render every placeholder as
/// `?`; Postgres renders the placeholder numbered `n` as `$n`.
pub open spec fn spec_piece_text(dia: Dialect, p: Piece) -> Seq<char> {
    match p {
        Piece::Lit(t) => t,
        Piece::Hole(n) => match dia {
            Dialect::Postgres => seq!['$'] + spec_dec_digits(n as nat),
            _ => seq!['?'],
        },
    }
}

/// The concatenated text of a fragment sequence.
pub open spec fn spec_pieces_text(dia: Dialect, ps: Seq<Piece>) -> Seq<char>
    decreases ps.len(),
{
    if ps.len() == 0 {
        Seq::empty()
    } else {
        spec_pieces_text(dia, ps.drop_last()) + spec_piece_text(dia, ps.last())
    }
}

/// The escaped inline literal a `Choice` value renders to.
pub open spec fn spec_choice_literal(dia: Dialect, c: Seq<char>) -> Seq<char> {
    match dia {
        Dialect::SQLite => db_specific::sqlite::spec_fmt(c),
        Dialect::MySQL => db_specific::mysql::spec_fmt(c),
        Dialect::Postgres => db_specific::postgres::spec_fmt(c),
    }
}

/// The fragments of one cell, given that `k` parameters stand in the
/// lookup list already. Identifiers are emitted verbatim (Postgres: wrapped
/// in double quotes), choices as escaped inline literals, a null of choice
/// type as the `NULL` keyword; every other value becomes a placeholder.
pub open spec fn spec_cell_pieces(dia: Dialect, v: Value, k: int) -> Seq<Piece> {
    match v {
        Value::Ident(st) => match dia {
            Dialect::Postgres => seq![Piece::Lit(seq!['"'] + st@ + seq!['"'])],
            _ => seq![Piece::Lit(st@)],
        },
        Value::Choice(c) => seq![Piece::Lit(spec_choice_literal(dia, c@))],
        Value::Null(NullType::Choice) => seq![Piece::Lit("NULL"@)],
        _ => seq![Piece::Hole(k + 1)],
    }
}

/// The values of a row that are pushed onto the parameter list, in cell
/// order: exactly the cells `is_bound` admits.
pub open spec fn spec_row_params(cells: Seq<Value>) -> Seq<Value>
    decreases cells.len(),
{
    if cells.len() == 0 {
        Seq::empty()
    } else if is_bound(cells.last()) {
        spec_row_params(cells.drop_last()).push(cells.last())
    } else {
        spec_row_params(cells.drop_last())
    }
}

/// The fragments of one row's cell list (without the surrounding
/// parentheses), `k` parameters standing in the lookup list already.
pub open spec fn spec_row_pieces(dia: Dialect, cells: Seq<Value>, k: int) -> Seq<Piece>
    decreases cells.len(),
{
    if cells.len() == 0 {
        Seq::empty()
    } else if cells.len() == 1 {
        spec_cell_pieces(dia, cells[0], k)
    } else {
        spec_row_pieces(dia, cells.drop_last(), k) + seq![Piece::Lit(", "@)]
            + spec_cell_pieces(dia, cells.last(), k + spec_row_params(cells.drop_last()).len())
    }
}

/// The values of the whole grid that are pushed onto the parameter list,
/// row by row.
pub open spec fn spec_rows_params(rows: Seq<Seq<Value>>) -> Seq<Value>
    decreases rows.len(),
{
    if rows.len() == 0 {
        Seq::empty()
    } else {
        spec_rows_params(rows.drop_last()) + spec_row_params(rows.last())
    }
}

/// The fragments of the whole `VALUES` grid: each row parenthesized,
/// rows separated by `", "`.
pub open spec fn spec_rows_pieces(dia: Dialect, rows: Seq<Seq<Value>>, k: int) -> Seq<Piece>
    decreases rows.len(),
{
    if rows.len() == 0 {
        Seq::empty()
    } else if rows.len() == 1 {
        seq![Piece::Lit("("@)] + spec_row_pieces(dia, rows[0], k) + seq![Piece::Lit(")"@)]
    } else {
        spec_rows_pieces(dia, rows.drop_last(), k) + seq![Piece::Lit(", "@), Piece::Lit("("@)]
            + spec_row_pieces(dia, rows.last(), k + spec_rows_params(rows.drop_last()).len())
            + seq![Piece::Lit(")"@)]
    }
}

/// The conflict clause text SQLite and MySQL put after `INSERT `.
pub open spec fn spec_conflict_text(c: OnConflict) -> Seq<char> {
    match c {
        OnConflict::ABORT => "OR ABORT "@,
        OnConflict::ROLLBACK => "OR ROLLBACK "@,
    }
}

/// The quote text put around identifiers of a dialect: backticks for
/// MySQL, double quotes for Postgres, none for SQLite.
pub open spec fn spec_ident_quote(dia: Dialect) -> Seq<char> {
    match dia {
        Dialect::SQLite => ""@,
        Dialect::MySQL => "`"@,
        Dialect::Postgres => "\""@,
    }
}

/// The quote text put around RETURNING column names: like
/// [spec_ident_quote], except that SQLite uses double quotes here.
pub open spec fn spec_returning_quote(dia: Dialect) -> Seq<char> {
    match dia {
        Dialect::SQLite => "\""@,
        Dialect::MySQL => "`"@,
        Dialect::Postgres => "\""@,
    }
}

/// The optional ` RETURNING ...` tail of a statement.
pub open spec fn spec_returning_text(dia: Dialect, ret: Option<Vec<String>>) -> Seq<char> {
    match ret {
        Option::None => Seq::empty(),
        Option::Some(names) => " RETURNING "@ + spec_quoted_join(
            names@.map_values(|n: String| n@),
            spec_returning_quote(dia),
        ),
    }
}

/// The statement head, up to (and excluding) either ` DEFAULT VALUES` or
/// the ` (` that opens the column list: `INSERT `, then the conflict
/// clause where the dialect and branch apply it, then `INTO ` and the
/// quoted table name. MySQL applies the conflict clause only on the
/// empty-columns branch; Postgres never does.
pub open spec fn spec_head_text(dia: Dialect, d: InsertData) -> Seq<char> {
    match dia {
        Dialect::SQLite => "INSERT "@ + spec_conflict_text(d.on_conflict) + "INTO "@
            + d.into_clause@,
        Dialect::MySQL => if d.columns@.len() == 0 {
            "INSERT "@ + spec_conflict_text(d.on_conflict) + "INTO `"@ + d.into_clause@ + "`"@
        } else {
            "INSERT INTO `"@ + d.into_clause@ + "`"@
        },
        Dialect::Postgres => "INSERT INTO \""@ + d.into_clause@ + "\""@,
    }
}

/// The fragments of a whole INSERT statement.
pub open spec fn spec_insert_pieces(dia: Dialect, d: InsertData) -> Seq<Piece> {
    if d.columns@.len() == 0 {
        seq![Piece::Lit(spec_head_text(dia, d))] + seq![Piece::Lit(" DEFAULT VALUES"@)]
            + seq![Piece::Lit(spec_returning_text(dia, d.returning_clause))]
            + seq![Piece::Lit(";"@)]
    } else {
        seq![Piece::Lit(spec_head_text(dia, d))] + seq![Piece::Lit(" ("@)]
            + seq![Piece::Lit(spec_quoted_join(
                d.columns@.map_values(|n: String| n@),
                spec_ident_quote(dia),
            ))]
            + seq![Piece::Lit(") VALUES "@)]
            + spec_rows_pieces(dia, d.row_values@.map_values(|r: Vec<Value>| r@), d.lookup@.len() as int)
            + seq![Piece::Lit(spec_returning_text(dia, d.returning_clause))]
            + seq![Piece::Lit(";"@)]
    }
}

/// The exact text [Insert::build] returns.
pub open spec fn spec_insert_text(dia: Dialect, d: InsertData) -> Seq<char> {
    spec_pieces_text(dia, spec_insert_pieces(dia, d))
}

/// The exact parameter list [Insert::build] returns: whatever the lookup
/// accumulator already held, then — only on the column-list branch — the
/// bound cells of the grid in row-major order.
pub open spec fn spec_insert_params(d: InsertData) -> Seq<Value> {
    if d.columns@.len() == 0 {
        d.lookup@
    } else {
        d.lookup@ + spec_rows_params(d.row_values@.map_values(|r: Vec<Value>| r@))
    }
}

/// The text of concatenated fragments is the concatenation of their texts.
pub proof fn lemma_pieces_text_concat(dia: Dialect, a: Seq<Piece>, b: Seq<Piece>)
    ensures
        spec_pieces_text(dia, a + b) == spec_pieces_text(dia, a) + spec_pieces_text(dia, b),
    decreases b.len(),
{
    if b.len() == 0 {
        assert(a + b =~= a);
        assert(spec_pieces_text(dia, a) + spec_pieces_text(dia, b) =~= spec_pieces_text(dia, a));
    } else {
        lemma_pieces_text_concat(dia, a, b.drop_last());
        assert((a + b).drop_last() =~= a + b.drop_last());
        assert((a + b).last() == b.last());
        assert(spec_pieces_text(dia, a + b) =~= spec_pieces_text(dia, a) + spec_pieces_text(
            dia,
            b,
        ));
    }
}

/// The text of a single fragment.
pub proof fn lemma_pieces_text_one(dia: Dialect, p: Piece)
    ensures
        spec_pieces_text(dia, seq![p]) == spec_piece_text(dia, p),
{
    assert(spec_pieces_text(dia, Seq::<Piece>::empty()) == Seq::<char>::empty());
    assert(seq![p].drop_last() =~= Seq::<Piece>::empty());
    assert(seq![p].last() == p);
    assert(spec_pieces_text(dia, seq![p]) =~= spec_piece_text(dia, p));
}

/// Appends the rendering of one cell to `s`, and the cell itself to
/// `lookup` if it is a bound value.
fn append_cell(dia: Dialect, s: &mut String, lookup: &mut Vec<Value>, v: Value)
    ensures
        final(s)@ == old(s)@ + spec_pieces_text(
            dia,
            spec_cell_pieces(dia, v, old(lookup)@.len() as int),
        ),
        final(lookup)@ == if is_bound(v) {
            old(lookup)@.push(v)
        } else {
            old(lookup)@
        },
{
    let ghost pieces = spec_cell_pieces(dia, v, old(lookup)@.len() as int);
    proof {
        lemma_pieces_text_one(dia, pieces[0]);
        assert(pieces =~= seq![pieces[0]]);
    }
    match v {
        Value::Ident(st) => {
            match dia {
                Dialect::Postgres => {
                    crate::text::push_char(s, '"');
                    s.append(st.as_str());
                    crate::text::push_char(s, '"');
                    assert(s@ =~= old(s)@ + spec_pieces_text(dia, pieces));
                },
                _ => {
                    s.append(st.as_str());
                    assert(s@ =~= old(s)@ + spec_pieces_text(dia, pieces));
                },
            }
        },
        Value::Choice(c) => {
            let lit = match dia {
                Dialect::SQLite => db_specific::sqlite::fmt(c.as_str()),
                Dialect::MySQL => db_specific::mysql::fmt(c.as_str()),
                Dialect::Postgres => db_specific::postgres::fmt(c.as_str()),
            };
            s.append(lit.as_str());
            assert(s@ =~= old(s)@ + spec_pieces_text(dia, pieces));
        },
        Value::Null(NullType::Choice) => {
            s.append("NULL");
            assert(s@ =~= old(s)@ + spec_pieces_text(dia, pieces));
        },
        other => {
            assert(is_bound(other));
            lookup.push(other);
            match dia {
                Dialect::Postgres => {
                    crate::text::push_char(s, '$');
                    crate::text::append_dec(s, lookup.len());
                    assert(s@ =~= old(s)@ + spec_pieces_text(dia, pieces));
                },
                _ => {
                    crate::text::push_char(s, '?');
                    assert(s@ =~= old(s)@ + spec_pieces_text(dia, pieces));
                },
            }
        },
    }
}

/// Appends the rendering of one row's cell list (without parentheses) to
/// `s`, moving the row's bound cells onto `lookup` in cell order.
fn append_row(dia: Dialect, s: &mut String, lookup: &mut Vec<Value>, cells: Vec<Value>)
    ensures
        final(s)@ == old(s)@ + spec_pieces_text(
            dia,
            spec_row_pieces(dia, cells@, old(lookup)@.len() as int),
        ),
        final(lookup)@ == old(lookup)@ + spec_row_params(cells@),
{
    let ghost orig = cells@;
    let ghost k0 = old(lookup)@.len() as int;
    let mut cells = cells;
    let n = cells.len();
    let mut i: usize = 0;
    while i < n
        invariant
            n == orig.len(),
            i <= n,
            cells@ == orig.subrange(i as int, n as int),
            lookup@ == old(lookup)@ + spec_row_params(orig.take(i as int)),
            s@ == old(s)@ + spec_pieces_text(dia, spec_row_pieces(dia, orig.take(i as int), k0)),
            k0 == old(lookup)@.len(),
        decreases n - i,
    {
        let ghost s_pre = s@;
        let ghost done = spec_row_pieces(dia, orig.take(i as int), k0);
        if i != 0 {
            s.append(", ");
        }
        let v = cells.remove(0);
        proof {
            assert(orig.subrange(i as int, n as int)[0] == orig[i as int]);
            assert(orig.subrange(i as int, n as int).remove(0) =~= orig.subrange(
                i + 1,
                n as int,
            ));
        }
        append_cell(dia, s, lookup, v);
        proof {
            let cell = spec_cell_pieces(
                dia,
                orig[i as int],
                k0 + spec_row_params(orig.take(i as int)).len(),
            );
            assert(orig.take(i + 1).drop_last() =~= orig.take(i as int));
            assert(orig.take(i + 1).last() == orig[i as int]);
            assert(lookup@ =~= old(lookup)@ + spec_row_params(orig.take(i + 1)));
            if i == 0 {
                assert(spec_row_pieces(dia, orig.take(1), k0) == spec_cell_pieces(
                    dia,
                    orig.take(1)[0],
                    k0,
                ));
                assert(orig.take(1)[0] == orig[0]);
                assert(spec_row_params(orig.take(0int)).len() == 0);
                assert(s@ =~= old(s)@ + spec_pieces_text(
                    dia,
                    spec_row_pieces(dia, orig.take(i + 1), k0),
                ));
            } else {
                let sep = seq![Piece::Lit(", "@)];
                assert(spec_row_pieces(dia, orig.take(i + 1), k0) == done + sep + cell);
                lemma_pieces_text_one(dia, Piece::Lit(", "@));
                lemma_pieces_text_concat(dia, done, sep);
                lemma_pieces_text_concat(dia, done + sep, cell);
                assert(s@ =~= old(s)@ + spec_pieces_text(
                    dia,
                    spec_row_pieces(dia, orig.take(i + 1), k0),
                ));
            }
        }
        i += 1;
    }
    proof {
        assert(orig.take(n as int) =~= orig);
    }
}

/// Appends the rendering of the whole `VALUES` grid to `s`, moving every
/// bound cell onto `lookup` in row-major order.
fn append_rows(dia: Dialect, s: &mut String, lookup: &mut Vec<Value>, rows: Vec<Vec<Value>>)
    ensures
        final(s)@ == old(s)@ + spec_pieces_text(
            dia,
            spec_rows_pieces(
                dia,
                rows@.map_values(|r: Vec<Value>| r@),
                old(lookup)@.len() as int,
            ),
        ),
        final(lookup)@ == old(lookup)@ + spec_rows_params(rows@.map_values(|r: Vec<Value>| r@)),
{
    let ghost orig = rows@.map_values(|r: Vec<Value>| r@);
    let ghost k0 = old(lookup)@.len() as int;
    let mut rows = rows;
    let n = rows.len();
    let mut i: usize = 0;
    while i < n
        invariant
            n == orig.len(),
            i <= n,
            rows@.map_values(|r: Vec<Value>| r@) == orig.subrange(i as int, n as int),
            lookup@ == old(lookup)@ + spec_rows_params(orig.take(i as int)),
            s@ == old(s)@ + spec_pieces_text(dia, spec_rows_pieces(dia, orig.take(i as int), k0)),
            k0 == old(lookup)@.len(),
        decreases n - i,
    {
        let ghost done = spec_rows_pieces(dia, orig.take(i as int), k0);
        if i != 0 {
            s.append(", ");
        }
        s.append("(");
        proof {
            assert(rows@.map_values(|r: Vec<Value>| r@).len() == rows@.len());
        }
        let row = rows.remove(0);
        proof {
            let ghost prev = orig.subrange(i as int, n as int);
            assert(rows@.map_values(|r: Vec<Value>| r@) =~= prev.remove(0));
            assert(prev.remove(0) =~= orig.subrange(i + 1, n as int));
            assert(row@ == prev[0]) by {
                assert(prev[0] == orig[i as int]);
            }
        }
        append_row(dia, s, lookup, row);
        s.append(")");
        proof {
            let rp = spec_row_pieces(
                dia,
                orig[i as int],
                k0 + spec_rows_params(orig.take(i as int)).len(),
            );
            assert(orig.take(i + 1).drop_last() =~= orig.take(i as int));
            assert(orig.take(i + 1).last() == orig[i as int]);
            assert(lookup@ =~= old(lookup)@ + spec_rows_params(orig.take(i + 1)));
            lemma_pieces_text_one(dia, Piece::Lit("("@));
            lemma_pieces_text_one(dia, Piece::Lit(")"@));
            if i == 0 {
                let open = seq![Piece::Lit("("@)];
                let close = seq![Piece::Lit(")"@)];
                assert(spec_rows_pieces(dia, orig.take(1), k0) == open + spec_row_pieces(
                    dia,
                    orig.take(1)[0],
                    k0,
                ) + close);
                assert(orig.take(1)[0] == orig[0]);
                assert(spec_rows_params(orig.take(0int)).len() == 0);
                lemma_pieces_text_concat(dia, open, rp);
                lemma_pieces_text_concat(dia, open + rp, close);
                assert(s@ =~= old(s)@ + spec_pieces_text(
                    dia,
                    spec_rows_pieces(dia, orig.take(i + 1), k0),
                ));
            } else {
                let sep = seq![Piece::Lit(", "@), Piece::Lit("("@)];
                let close = seq![Piece::Lit(")"@)];
                assert(spec_rows_pieces(dia, orig.take(i + 1), k0) == done + sep + rp + close);
                assert(sep =~= seq![Piece::Lit(", "@)] + seq![Piece::Lit("("@)]);
                lemma_pieces_text_one(dia, Piece::Lit(", "@));
                lemma_pieces_text_concat(dia, seq![Piece::Lit(", "@)], seq![Piece::Lit("("@)]);
                lemma_pieces_text_concat(dia, done, sep);
                lemma_pieces_text_concat(dia, done + sep, rp);
                lemma_pieces_text_concat(dia, done + sep + rp, close);
                assert(s@ =~= old(s)@ + spec_pieces_text(
                    dia,
                    spec_rows_pieces(dia, orig.take(i + 1), k0),
                ));
            }
        }
        i += 1;
    }
    proof {
        assert(orig.take(n as int) =~= orig);
    }
}

/// Appends the optional ` RETURNING ...` tail to `s`.
fn append_returning(dia: Dialect, s: &mut String, ret: Option<Vec<String>>)
    ensures
        final(s)@ == old(s)@ + spec_returning_text(dia, ret),
{
    match ret {
        Option::None => {},
        Option::Some(names) => {
            s.append(" RETURNING ");
            let q = match dia {
                Dialect::SQLite => "\"",
                Dialect::MySQL => "`",
                Dialect::Postgres => "\"",
            };
            crate::text::append_quoted_list(s, &names, q);
            assert(s@ =~= old(s)@ + spec_returning_text(dia, ret));
        },
    }
}

/// Renders an INSERT statement for the given dialect: returns the exact
/// statement text and the values to bind to its placeholders, in the order
/// the placeholders stand in the text.
pub fn build_insert(dia: Dialect, d: InsertData) -> (r: (String, Vec<Value>))
    ensures
        r.0@ == spec_insert_text(dia, d),
        r.1@ == spec_insert_params(d),
{
    let ghost d0 = d;
    let InsertData { into_clause, columns, row_values, lookup, on_conflict, returning_clause } = d;
    let mut lookup = lookup;
    let mut s = String::new();
    match dia {
        Dialect::SQLite => {
            s.append("INSERT ");
            match on_conflict {
                OnConflict::ABORT => s.append("OR ABORT "),
                OnConflict::ROLLBACK => s.append("OR ROLLBACK "),
            }
            s.append("INTO ");
            s.append(into_clause.as_str());
        },
        Dialect::MySQL => {
            if columns.len() == 0 {
                s.append("INSERT ");
                match on_conflict {
                    OnConflict::ABORT => s.append("OR ABORT "),
                    OnConflict::ROLLBACK => s.append("OR ROLLBACK "),
                }
                s.append("INTO `");
                s.append(into_clause.as_str());
                s.append("`");
            } else {
                s.append("INSERT INTO `");
                s.append(into_clause.as_str());
                s.append("`");
            }
        },
        Dialect::Postgres => {
            s.append("INSERT INTO \"");
            s.append(into_clause.as_str());
            s.append("\"");
        },
    }
    assert(s@ =~= spec_head_text(dia, d0));
    if columns.len() == 0 {
        s.append(" DEFAULT VALUES");
        let ghost mid = s@;
        append_returning(dia, &mut s, returning_clause);
        s.append(";");
        proof {
            let head = seq![Piece::Lit(spec_head_text(dia, d0))];
            let dv = seq![Piece::Lit(" DEFAULT VALUES"@)];
            let ret = seq![Piece::Lit(spec_returning_text(dia, d0.returning_clause))];
            let semi = seq![Piece::Lit(";"@)];
            assert(spec_insert_pieces(dia, d0) =~= head + dv + ret + semi);
            lemma_pieces_text_one(dia, head[0]);
            lemma_pieces_text_one(dia, dv[0]);
            lemma_pieces_text_one(dia, ret[0]);
            lemma_pieces_text_one(dia, semi[0]);
            lemma_pieces_text_concat(dia, head, dv);
            lemma_pieces_text_concat(dia, head + dv, ret);
            lemma_pieces_text_concat(dia, head + dv + ret, semi);
            assert(s@ =~= spec_insert_text(dia, d0));
        }
        (s, lookup)
    } else {
        s.append(" (");
        let q = match dia {
            Dialect::SQLite => "",
            Dialect::MySQL => "`",
            Dialect::Postgres => "\"",
        };
        crate::text::append_quoted_list(&mut s, &columns, q);
        s.append(") VALUES ");
        let ghost k0 = lookup@.len() as int;
        append_rows(dia, &mut s, &mut lookup, row_values);
        append_returning(dia, &mut s, returning_clause);
        s.append(";");
        proof {
            let head = seq![Piece::Lit(spec_head_text(dia, d0))];
            let open = seq![Piece::Lit(" ("@)];
            let cols = seq![Piece::Lit(spec_quoted_join(
                d0.columns@.map_values(|n: String| n@),
                spec_ident_quote(dia),
            ))];
            let values = seq![Piece::Lit(") VALUES "@)];
            let rp = spec_rows_pieces(
                dia,
                d0.row_values@.map_values(|r: Vec<Value>| r@),
                d0.lookup@.len() as int,
            );
            let ret = seq![Piece::Lit(spec_returning_text(dia, d0.returning_clause))];
            let semi = seq![Piece::Lit(";"@)];
            assert(spec_insert_pieces(dia, d0) =~= head + open + cols + values + rp + ret + semi);
            lemma_pieces_text_one(dia, head[0]);
            lemma_pieces_text_one(dia, open[0]);
            lemma_pieces_text_one(dia, cols[0]);
            lemma_pieces_text_one(dia, values[0]);
            lemma_pieces_text_one(dia, ret[0]);
            lemma_pieces_text_one(dia, semi[0]);
            lemma_pieces_text_concat(dia, head, open);
            lemma_pieces_text_concat(dia, head + open, cols);
            lemma_pieces_text_concat(dia, head + open + cols, values);
            lemma_pieces_text_concat(dia, head + open + cols + values, rp);
            lemma_pieces_text_concat(dia, head + open + cols + values + rp, ret);
            lemma_pieces_text_concat(dia, head + open + cols + values + rp + ret, semi);
            assert(s@ =~= spec_insert_text(dia, d0));
        }
        (s, lookup)
    }
}

/**
Trait representing a insert builder.
 */
pub trait Insert: Sized {
    /// The value after turning ROLLBACK mode on.
    spec fn spec_rollback(self) -> Self;

    /// The exact statement text [Insert::build] returns.
    spec fn spec_text(self) -> Seq<char>;

    /// The exact parameter list [Insert::build] returns.
    spec fn spec_params(self) -> Seq<Value>;

    /**
    Turns on ROLLBACK mode.

    Only useful in case of an active transaction.

    If the insert fails, the complete transaction will be rolled back.
    The default case is to just stop the transaction, but not rollback any
    prior successful executed queries.
     */
    fn rollback_transaction(self) -> (r: Self)
        ensures
            r == self.spec_rollback(),
    ;

    /**
    This method is used to build the INSERT query.
    It returns the build query as well as a vector of values to bind to it.
     */
    fn build(self) -> (r: (String, Vec<Value>))
        ensures
            r.0@ == self.spec_text(),
            r.1@ == self.spec_params(),
    ;
}

/**
Implementation of the [Insert] trait for the different dialects.
 */
#[derive(Debug)]
pub enum InsertImpl {
    /**
    SQLite representation of the INSERT operation.
     */
    SQLite(InsertData),
    /**
    MySQL representation of the INSERT operation.
     */
    MySQL(InsertData),
    /**
    Postgres representation of the INSERT operation.
     */
    Postgres(InsertData),
}

impl Insert for InsertImpl {
    open spec fn spec_rollback(self) -> Self {
        match self {
            InsertImpl::SQLite(d) => InsertImpl::SQLite(
                InsertData { on_conflict: OnConflict::ROLLBACK, ..d },
            ),
            InsertImpl::MySQL(d) => InsertImpl::MySQL(
                InsertData { on_conflict: OnConflict::ROLLBACK, ..d },
            ),
            InsertImpl::Postgres(d) => InsertImpl::Postgres(
                InsertData { on_conflict: OnConflict::ROLLBACK, ..d },
            ),
        }
    }

    open spec fn spec_text(self) -> Seq<char> {
        match self {
            InsertImpl::SQLite(d) => spec_insert_text(Dialect::SQLite, d),
            InsertImpl::MySQL(d) => spec_insert_text(Dialect::MySQL, d),
            InsertImpl::Postgres(d) => spec_insert_text(Dialect::Postgres, d),
        }
    }

    open spec fn spec_params(self) -> Seq<Value> {
        match self {
            InsertImpl::SQLite(d) => spec_insert_params(d),
            InsertImpl::MySQL(d) => spec_insert_params(d),
            InsertImpl::Postgres(d) => spec_insert_params(d),
        }
    }

    fn rollback_transaction(self) -> (r: Self) {
        match self {
            InsertImpl::SQLite(mut d) => {
                d.on_conflict = OnConflict::ROLLBACK;
                InsertImpl::SQLite(d)
            },
            InsertImpl::MySQL(mut d) => {
                d.on_conflict = OnConflict::ROLLBACK;
                InsertImpl::MySQL(d)
            },
            InsertImpl::Postgres(mut d) => {
                d.on_conflict = OnConflict::ROLLBACK;
                InsertImpl::Postgres(d)
            },
        }
    }

    fn build(self) -> (r: (String, Vec<Value>)) {
        match self {
            InsertImpl::SQLite(d) => build_insert(Dialect::SQLite, d),
            InsertImpl::MySQL(d) => build_insert(Dialect::MySQL, d),
            InsertImpl::Postgres(d) => build_insert(Dialect::Postgres, d),
        }
    }
}

} // verus!

