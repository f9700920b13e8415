use vstd::prelude::*;
use crate::insert::spec_cell_pieces;
use crate::insert::spec_insert_params;
use crate::insert::spec_insert_pieces;
use crate::insert::spec_insert_text;
use crate::insert::spec_piece_text;
use crate::insert::spec_row_params;
use crate::insert::spec_row_pieces;
use crate::insert::spec_rows_params;
use crate::insert::spec_rows_pieces;
use crate::insert::Dialect;
use crate::insert::Insert;
use crate::insert::InsertData;
use crate::insert::Piece;
use crate::text::spec_dec_digits;
use crate::value::is_bound;
use crate::value::Value;

verus! {

/// The placeholder fragments of a fragment sequence, in text order.
pub open spec fn spec_holes(ps: Seq<Piece>) -> Seq<Piece>
    decreases ps.len(),
{
    if ps.len() == 0 {
        Seq::empty()
    } else {
        spec_holes(ps.drop_last()) + (if ps.last() is Hole {
            seq![ps.last()]
        } else {
            Seq::<Piece>::empty()
        })
    }
}

proof fn lemma_holes_concat(a: Seq<Piece>, b: Seq<Piece>)
    ensures
        spec_holes(a + b) == spec_holes(a) + spec_holes(b),
    decreases b.len(),
{
    if b.len() == 0 {
        assert(a + b =~= a);
        assert(spec_holes(a) + spec_holes(b) =~= spec_holes(a));
    } else {
        lemma_holes_concat(a, b.drop_last());
        assert((a + b).drop_last() =~= a + b.drop_last());
        assert((a + b).last() == b.last());
        assert(spec_holes(a + b) =~= spec_holes(a) + spec_holes(b));
    }
}

proof fn lemma_holes_one(p: Piece)
    ensures
        p is Hole ==> spec_holes(seq![p]) == seq![p],
        !(p is Hole) ==> spec_holes(seq![p]) == Seq::<Piece>::empty(),
{
    assert(spec_holes(Seq::<Piece>::empty()) == Seq::<Piece>::empty());
    assert(seq![p].drop_last() =~= Seq::<Piece>::empty());
    assert(seq![p].last() == p);
    if p is Hole {
        assert(spec_holes(seq![p]) =~= seq![p]);
    } else {
        assert(spec_holes(seq![p]) =~= Seq::<Piece>::empty());
    }
}

/// A cell that is not bound renders to literal text only — no placeholder —
/// and a bound cell renders to exactly one placeholder, carrying the next
/// 1-based parameter position.
pub proof fn lemma_cell_holes(dia: Dialect, v: Value, k: int)
    ensures
        spec_holes(spec_cell_pieces(dia, v, k)) == if is_bound(v) {
            seq![Piece::Hole(k + 1)]
        } else {
            Seq::<Piece>::empty()
        },
{
    let ps = spec_cell_pieces(dia, v, k);
    assert(ps.len() == 1);
    lemma_holes_one(ps[0]);
    assert(ps =~= seq![ps[0]]);
    if is_bound(v) {
        assert(ps[0] == Piece::Hole(k + 1));
    } else {
        assert(ps[0] is Lit);
    }
}

proof fn lemma_row_holes(dia: Dialect, cells: Seq<Value>, k: int)
    ensures
        spec_holes(spec_row_pieces(dia, cells, k)) =~= Seq::new(
            spec_row_params(cells).len(),
            |j: int| Piece::Hole(k + j + 1),
        ),
    decreases cells.len(),
{
    if cells.len() == 0 {
    } else if cells.len() == 1 {
        lemma_cell_holes(dia, cells[0], k);
        assert(cells.drop_last() =~= Seq::<Value>::empty());
        assert(cells.last() == cells[0]);
        assert(spec_row_params(Seq::<Value>::empty()) == Seq::<Value>::empty());
        if is_bound(cells[0]) {
            assert(spec_row_params(cells) =~= seq![cells[0]]);
        } else {
            assert(spec_row_params(cells) =~= Seq::<Value>::empty());
        }
        assert(spec_holes(spec_row_pieces(dia, cells, k)) =~= Seq::new(
            spec_row_params(cells).len(),
            |j: int| Piece::Hole(k + j + 1),
        ));
    } else {
        let dl = cells.drop_last();
        let m0 = spec_row_params(dl).len() as int;
        lemma_row_holes(dia, dl, k);
        lemma_cell_holes(dia, cells.last(), k + m0);
        let sep = seq![Piece::Lit(", "@)];
        lemma_holes_one(sep[0]);
        assert(sep =~= seq![sep[0]]);
        lemma_holes_concat(spec_row_pieces(dia, dl, k), sep);
        lemma_holes_concat(
            spec_row_pieces(dia, dl, k) + sep,
            spec_cell_pieces(dia, cells.last(), k + m0),
        );
        if is_bound(cells.last()) {
            assert(spec_row_params(cells) == spec_row_params(dl).push(cells.last()));
        } else {
            assert(spec_row_params(cells) == spec_row_params(dl));
        }
        assert(spec_holes(spec_row_pieces(dia, cells, k)) =~= Seq::new(
            spec_row_params(cells).len(),
            |j: int| Piece::Hole(k + j + 1),
        ));
    }
}

proof fn lemma_rows_holes(dia: Dialect, rows: Seq<Seq<Value>>, k: int)
    ensures
        spec_holes(spec_rows_pieces(dia, rows, k)) =~= Seq::new(
            spec_rows_params(rows).len(),
            |j: int| Piece::Hole(k + j + 1),
        ),
    decreases rows.len(),
{
    let open = seq![Piece::Lit("("@)];
    let close = seq![Piece::Lit(")"@)];
    lemma_holes_one(open[0]);
    lemma_holes_one(close[0]);
    assert(open =~= seq![open[0]]);
    assert(close =~= seq![close[0]]);
    if rows.len() == 0 {
    } else if rows.len() == 1 {
        lemma_row_holes(dia, rows[0], k);
        assert(rows.drop_last() =~= Seq::<Seq<Value>>::empty());
        assert(rows.last() == rows[0]);
        assert(spec_rows_params(Seq::<Seq<Value>>::empty()) == Seq::<Value>::empty());
        assert(spec_rows_params(rows) =~= spec_row_params(rows[0]));
        lemma_holes_concat(open, spec_row_pieces(dia, rows[0], k));
        lemma_holes_concat(open + spec_row_pieces(dia, rows[0], k), close);
        assert(spec_holes(spec_rows_pieces(dia, rows, k)) =~= Seq::new(
            spec_rows_params(rows).len(),
            |j: int| Piece::Hole(k + j + 1),
        ));
    } else {
        let dl = rows.drop_last();
        let m0 = spec_rows_params(dl).len() as int;
        lemma_rows_holes(dia, dl, k);
        lemma_row_holes(dia, rows.last(), k + m0);
        let sep = seq![Piece::Lit(", "@), Piece::Lit("("@)];
        assert(sep =~= seq![Piece::Lit(", "@)] + open);
        lemma_holes_one(Piece::Lit(", "@));
        lemma_holes_concat(seq![Piece::Lit(", "@)], open);
        let rp = spec_row_pieces(dia, rows.last(), k + m0);
        lemma_holes_concat(spec_rows_pieces(dia, dl, k), sep);
        lemma_holes_concat(spec_rows_pieces(dia, dl, k) + sep, rp);
        lemma_holes_concat(spec_rows_pieces(dia, dl, k) + sep + rp, close);
        assert(spec_rows_params(rows) == spec_rows_params(dl) + spec_row_params(rows.last()));
        assert(spec_holes(spec_rows_pieces(dia, rows, k)) =~= Seq::new(
            spec_rows_params(rows).len(),
            |j: int| Piece::Hole(k + j + 1),
        ));
    }
}

/// Placeholder/parameter alignment: a statement renders exactly one
/// placeholder fragment per parameter the build appends to the lookup list,
/// and the j-th placeholder (0-based, in text order) is numbered with the
/// 1-based position `lookup.len() + j + 1` of its value in the returned
/// parameter list — consecutive, never reused, never skipped.
pub proof fn lemma_placeholder_alignment(dia: Dialect, d: InsertData)
    ensures
        spec_insert_params(d).len() >= d.lookup@.len(),
        spec_insert_params(d).take(d.lookup@.len() as int) == d.lookup@,
        spec_holes(spec_insert_pieces(dia, d)) =~= Seq::new(
            (spec_insert_params(d).len() - d.lookup@.len()) as nat,
            |j: int| Piece::Hole(d.lookup@.len() + j + 1),
        ),
{
    let head = seq![Piece::Lit(crate::insert::spec_head_text(dia, d))];
    let ret = seq![
        Piece::Lit(crate::insert::spec_returning_text(dia, d.returning_clause)),
    ];
    let semi = seq![Piece::Lit(";"@)];
    lemma_holes_one(head[0]);
    lemma_holes_one(ret[0]);
    lemma_holes_one(semi[0]);
    if d.columns@.len() == 0 {
        let dv = seq![Piece::Lit(" DEFAULT VALUES"@)];
        lemma_holes_one(dv[0]);
        lemma_holes_concat(head, dv);
        lemma_holes_concat(head + dv, ret);
        lemma_holes_concat(head + dv + ret, semi);
        assert(spec_insert_params(d).take(d.lookup@.len() as int) =~= d.lookup@);
    } else {
        let open = seq![Piece::Lit(" ("@)];
        let cols = seq![
            Piece::Lit(crate::text::spec_quoted_join(
                d.columns@.map_values(|n: String| n@),
                crate::insert::spec_ident_quote(dia),
            )),
        ];
        let values = seq![Piece::Lit(") VALUES "@)];
        lemma_holes_one(open[0]);
        lemma_holes_one(cols[0]);
        lemma_holes_one(values[0]);
        let grid = d.row_values@.map_values(|r: Vec<Value>| r@);
        let k0 = d.lookup@.len() as int;
        let rp = spec_rows_pieces(dia, grid, k0);
        lemma_rows_holes(dia, grid, k0);
        lemma_holes_concat(head, open);
        lemma_holes_concat(head + open, cols);
        lemma_holes_concat(head + open + cols, values);
        lemma_holes_concat(head + open + cols + values, rp);
        lemma_holes_concat(head + open + cols + values + rp, ret);
        lemma_holes_concat(head + open + cols + values + rp + ret, semi);
        assert(spec_insert_params(d).take(d.lookup@.len() as int) =~= d.lookup@);
    }
}

/// Postgres sequential numbering: starting from an empty lookup
/// accumulator, the k-th placeholder of the rendered statement (1-based, in
/// text order) renders as the text `$k`.
pub proof fn lemma_postgres_numbering(d: InsertData)
    requires
        d.lookup@.len() == 0,
    ensures
        forall|j: int|
            0 <= j < spec_holes(spec_insert_pieces(Dialect::Postgres, d)).len()
                ==> spec_piece_text(
                Dialect::Postgres,
                #[trigger] spec_holes(spec_insert_pieces(Dialect::Postgres, d))[j],
            ) == seq!['$'] + spec_dec_digits((j + 1) as nat),
{
    lemma_placeholder_alignment(Dialect::Postgres, d);
}

proof fn lemma_row_params_bound(cells: Seq<Value>)
    ensures
        forall|j: int|
            0 <= j < spec_row_params(cells).len() ==> is_bound(
                #[trigger] spec_row_params(cells)[j],
            ),
    decreases cells.len(),
{
    if cells.len() == 0 {
    } else {
        lemma_row_params_bound(cells.drop_last());
        let dl = spec_row_params(cells.drop_last());
        if is_bound(cells.last()) {
            assert(spec_row_params(cells) == dl.push(cells.last()));
            assert forall|j: int| 0 <= j < spec_row_params(cells).len() implies is_bound(
                spec_row_params(cells)[j],
            ) by {
                if j < dl.len() {
                    assert(spec_row_params(cells)[j] == dl[j]);
                } else {
                    assert(spec_row_params(cells)[j] == cells.last());
                }
            }
        } else {
            assert(spec_row_params(cells) == dl);
        }
    }
}

proof fn lemma_rows_params_bound(rows: Seq<Seq<Value>>)
    ensures
        forall|j: int|
            0 <= j < spec_rows_params(rows).len() ==> is_bound(
                #[trigger] spec_rows_params(rows)[j],
            ),
    decreases rows.len(),
{
    if rows.len() == 0 {
    } else {
        lemma_rows_params_bound(rows.drop_last());
        lemma_row_params_bound(rows.last());
        let a = spec_rows_params(rows.drop_last());
        let b = spec_row_params(rows.last());
        assert(spec_rows_params(rows) == a + b);
        assert forall|j: int| 0 <= j < spec_rows_params(rows).len() implies is_bound(
            spec_rows_params(rows)[j],
        ) by {
            if j < a.len() {
                assert(spec_rows_params(rows)[j] == a[j]);
            } else {
                assert(spec_rows_params(rows)[j] == b[j - a.len()]);
            }
        }
    }
}

/// Choice/Null(Choice) exemption: every value the build appends to the
/// parameter list is a bound one, so `Choice` values, nulls of choice type
/// and identifiers never appear there (and, by [lemma_cell_holes], such
/// cells never produce a placeholder fragment either — they render as
/// inline literal text).
pub proof fn lemma_choice_stays_inline(d: InsertData)
    ensures
        forall|j: int|
            d.lookup@.len() <= j < spec_insert_params(d).len() ==> is_bound(
                #[trigger] spec_insert_params(d)[j],
            ),
{
    if d.columns@.len() == 0 {
    } else {
        lemma_rows_params_bound(d.row_values@.map_values(|r: Vec<Value>| r@));
    }
}

/// Empty-columns path: with no columns, the rendered text does not depend
/// on the row grid at all and the parameter list is exactly the lookup
/// accumulator.
pub proof fn lemma_default_values_path(dia: Dialect, d: InsertData, other_rows: Vec<Vec<Value>>)
    requires
        d.columns@.len() == 0,
    ensures
        spec_insert_text(dia, InsertData { row_values: other_rows, ..d }) == spec_insert_text(
            dia,
            d,
        ),
        spec_insert_params(d) == d.lookup@,
{
}

/// Two fragment sequences have the same shape: equal length, placeholders
/// at exactly the same positions, and equal placeholders there — they can
/// differ in literal text only.
pub open spec fn agree_on_holes(a: Seq<Piece>, b: Seq<Piece>) -> bool {
    &&& a.len() == b.len()
    &&& forall|j: int|
        0 <= j < a.len() ==> ((#[trigger] a[j]) is Hole == (#[trigger] b[j]) is Hole)
    &&& forall|j: int| 0 <= j < a.len() && (#[trigger] a[j]) is Hole ==> a[j] == b[j]
}

proof fn lemma_agree_concat(a1: Seq<Piece>, b1: Seq<Piece>, a2: Seq<Piece>, b2: Seq<Piece>)
    requires
        agree_on_holes(a1, a2),
        agree_on_holes(b1, b2),
    ensures
        agree_on_holes(a1 + b1, a2 + b2),
{
    assert forall|j: int| 0 <= j < (a1 + b1).len() implies ((#[trigger] (a1 + b1)[j]) is Hole
        == (#[trigger] (a2 + b2)[j]) is Hole) && ((a1 + b1)[j] is Hole ==> (a1 + b1)[j] == (a2
        + b2)[j]) by {
        if j < a1.len() {
            assert((a1 + b1)[j] == a1[j]);
            assert((a2 + b2)[j] == a2[j]);
        } else {
            assert((a1 + b1)[j] == b1[j - a1.len()]);
            assert((a2 + b2)[j] == b2[j - a1.len()]);
        }
    }
}

proof fn lemma_cell_agree(dia1: Dialect, dia2: Dialect, v: Value, k: int)
    ensures
        agree_on_holes(spec_cell_pieces(dia1, v, k), spec_cell_pieces(dia2, v, k)),
{
    let a = spec_cell_pieces(dia1, v, k);
    let b = spec_cell_pieces(dia2, v, k);
    assert(a.len() == 1 && b.len() == 1);
    if is_bound(v) {
        assert(a[0] == Piece::Hole(k + 1) && b[0] == Piece::Hole(k + 1));
    } else {
        assert(a[0] is Lit && b[0] is Lit);
    }
}

proof fn lemma_row_agree(dia1: Dialect, dia2: Dialect, cells: Seq<Value>, k: int)
    ensures
        agree_on_holes(spec_row_pieces(dia1, cells, k), spec_row_pieces(dia2, cells, k)),
    decreases cells.len(),
{
    if cells.len() == 0 {
    } else if cells.len() == 1 {
        lemma_cell_agree(dia1, dia2, cells[0], k);
    } else {
        let dl = cells.drop_last();
        let m0 = spec_row_params(dl).len() as int;
        lemma_row_agree(dia1, dia2, dl, k);
        lemma_cell_agree(dia1, dia2, cells.last(), k + m0);
        let sep = seq![Piece::Lit(", "@)];
        assert(agree_on_holes(sep, sep));
        lemma_agree_concat(spec_row_pieces(dia1, dl, k), sep, spec_row_pieces(dia2, dl, k), sep);
        lemma_agree_concat(
            spec_row_pieces(dia1, dl, k) + sep,
            spec_cell_pieces(dia1, cells.last(), k + m0),
            spec_row_pieces(dia2, dl, k) + sep,
            spec_cell_pieces(dia2, cells.last(), k + m0),
        );
    }
}

proof fn lemma_rows_agree(dia1: Dialect, dia2: Dialect, rows: Seq<Seq<Value>>, k: int)
    ensures
        agree_on_holes(spec_rows_pieces(dia1, rows, k), spec_rows_pieces(dia2, rows, k)),
    decreases rows.len(),
{
    let open = seq![Piece::Lit("("@)];
    let close = seq![Piece::Lit(")"@)];
    assert(agree_on_holes(open, open));
    assert(agree_on_holes(close, close));
    if rows.len() == 0 {
    } else if rows.len() == 1 {
        lemma_row_agree(dia1, dia2, rows[0], k);
        lemma_agree_concat(open, spec_row_pieces(dia1, rows[0], k), open, spec_row_pieces(
            dia2,
            rows[0],
            k,
        ));
        lemma_agree_concat(
            open + spec_row_pieces(dia1, rows[0], k),
            close,
            open + spec_row_pieces(dia2, rows[0], k),
            close,
        );
    } else {
        let dl = rows.drop_last();
        let m0 = spec_rows_params(dl).len() as int;
        lemma_rows_agree(dia1, dia2, dl, k);
        lemma_row_agree(dia1, dia2, rows.last(), k + m0);
        let sep = seq![Piece::Lit(", "@), Piece::Lit("("@)];
        assert(agree_on_holes(sep, sep));
        let rp1 = spec_row_pieces(dia1, rows.last(), k + m0);
        let rp2 = spec_row_pieces(dia2, rows.last(), k + m0);
        lemma_agree_concat(spec_rows_pieces(dia1, dl, k), sep, spec_rows_pieces(dia2, dl, k), sep);
        lemma_agree_concat(
            spec_rows_pieces(dia1, dl, k) + sep,
            rp1,
            spec_rows_pieces(dia2, dl, k) + sep,
            rp2,
        );
        lemma_agree_concat(
            spec_rows_pieces(dia1, dl, k) + sep + rp1,
            close,
            spec_rows_pieces(dia2, dl, k) + sep + rp2,
            close,
        );
    }
}

/// Dialect quoting agreement: for a fixed `InsertData`, any two dialects —
/// in particular SQLite and MySQL — render fragment sequences of the same
/// length with placeholders at exactly the same positions and with the same
/// numbering; the renderings differ only in literal text fragments (quote
/// characters, conflict clause, escaping, placeholder spelling). Rows and
/// columns are walked in the same order, and the parameter list is computed
/// without looking at the dialect at all.
pub proof fn lemma_dialects_agree_on_structure(dia1: Dialect, dia2: Dialect, d: InsertData)
    ensures
        agree_on_holes(spec_insert_pieces(dia1, d), spec_insert_pieces(dia2, d)),
{
    let head1 = seq![Piece::Lit(crate::insert::spec_head_text(dia1, d))];
    let head2 = seq![Piece::Lit(crate::insert::spec_head_text(dia2, d))];
    let ret1 = seq![
        Piece::Lit(crate::insert::spec_returning_text(dia1, d.returning_clause)),
    ];
    let ret2 = seq![
        Piece::Lit(crate::insert::spec_returning_text(dia2, d.returning_clause)),
    ];
    let semi = seq![Piece::Lit(";"@)];
    assert(agree_on_holes(head1, head2));
    assert(agree_on_holes(ret1, ret2));
    assert(agree_on_holes(semi, semi));
    if d.columns@.len() == 0 {
        let dv = seq![Piece::Lit(" DEFAULT VALUES"@)];
        assert(agree_on_holes(dv, dv));
        lemma_agree_concat(head1, dv, head2, dv);
        lemma_agree_concat(head1 + dv, ret1, head2 + dv, ret2);
        lemma_agree_concat(head1 + dv + ret1, semi, head2 + dv + ret2, semi);
    } else {
        let open = seq![Piece::Lit(" ("@)];
        let cols1 = seq![
            Piece::Lit(crate::text::spec_quoted_join(
                d.columns@.map_values(|n: String| n@),
                crate::insert::spec_ident_quote(dia1),
            )),
        ];
        let cols2 = seq![
            Piece::Lit(crate::text::spec_quoted_join(
                d.columns@.map_values(|n: String| n@),
                crate::insert::spec_ident_quote(dia2),
            )),
        ];
        let values = seq![Piece::Lit(") VALUES "@)];
        let grid = d.row_values@.map_values(|r: Vec<Value>| r@);
        let k0 = d.lookup@.len() as int;
        let rp1 = spec_rows_pieces(dia1, grid, k0);
        let rp2 = spec_rows_pieces(dia2, grid, k0);
        assert(agree_on_holes(open, open));
        assert(agree_on_holes(cols1, cols2));
        assert(agree_on_holes(values, values));
        lemma_rows_agree(dia1, dia2, grid, k0);
        lemma_agree_concat(head1, open, head2, open);
        lemma_agree_concat(head1 + open, cols1, head2 + open, cols2);
        lemma_agree_concat(head1 + open + cols1, values, head2 + open + cols2, values);
        lemma_agree_concat(head1 + open + cols1 + values, rp1, head2 + open + cols2 + values, rp2);
        lemma_agree_concat(
            head1 + open + cols1 + values + rp1,
            ret1,
            head2 + open + cols2 + values + rp2,
            ret2,
        );
        lemma_agree_concat(
            head1 + open + cols1 + values + rp1 + ret1,
            semi,
            head2 + open + cols2 + values + rp2 + ret2,
            semi,
        );
    }
}

/// Enabling rollback mode is idempotent and monotonic: doing it twice
/// equals doing it once, and nothing ever downgrades the policy back.
pub proof fn lemma_rollback_idempotent(i: crate::insert::InsertImpl)
    ensures
        i.spec_rollback().spec_rollback() == i.spec_rollback(),
{
}

} // verus!
