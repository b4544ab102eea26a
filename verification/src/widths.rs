//! Column sizing: for each column of a table, the character count of its
//! longest cell, header included.
//!
//! A cell is measured as a whole: every Unicode scalar value counts once, a
//! line break inside a multi-valued cell like any other character. Bytes are
//! never counted.

use crate::normalize::{Row, Table};
use vstd::prelude::*;

verus! {

/// The number of columns: the length of the header row, and 0 for a table
/// without rows.
pub open spec fn column_count(table: Table) -> nat {
    if table.len() == 0 {
        0
    } else {
        table[0].len()
    }
}

/// The character count of the cell of `row` in column `col`. A row that is
/// too short to have such a cell counts as 0 there.
pub open spec fn cell_width(row: Row, col: int) -> nat {
    if 0 <= col < row.len() {
        row[col].len()
    } else {
        0
    }
}

/// The largest character count among the cells of column `col`, and 0 for a
/// table without rows.
pub open spec fn column_width(table: Table, col: int) -> nat
    decreases table.len(),
{
    if table.len() == 0 {
        0
    } else {
        let above = column_width(table.drop_last(), col);
        let here = cell_width(table.last(), col);
        if here > above {
            here
        } else {
            above
        }
    }
}

/// `lengths` holds exactly the column widths of `table`: one entry per
/// column, left to right, each the width of its column.
pub open spec fn is_widths_of(lengths: Seq<usize>, table: Table) -> bool {
    &&& lengths.len() == column_count(table)
    &&& forall|c: int| 0 <= c < lengths.len() ==> #[trigger] lengths[c] == column_width(table, c)
}

/// The width of a column is an upper bound on its cells and, in a table with
/// at least one row, is reached by one of them.
pub proof fn lemma_column_width_is_max(table: Table, col: int)
    ensures
        forall|r: int|
            0 <= r < table.len() ==> cell_width(#[trigger] table[r], col) <= column_width(
                table,
                col,
            ),
        table.len() > 0 ==> exists|r: int|
            0 <= r < table.len() && cell_width(#[trigger] table[r], col) == column_width(
                table,
                col,
            ),
        table.len() == 0 ==> column_width(table, col) == 0,
    decreases table.len(),
{
    if table.len() > 0 {
        let rest = table.drop_last();
        lemma_column_width_is_max(rest, col);
        assert forall|r: int| 0 <= r < table.len() implies cell_width(#[trigger] table[r], col)
            <= column_width(table, col) by {
            if r < rest.len() {
                assert(rest[r] == table[r]);
            }
        }
        if cell_width(table.last(), col) > column_width(rest, col) || rest.len() == 0 {
            assert(cell_width(table[table.len() - 1], col) == column_width(table, col));
        } else {
            let r = choose|r: int|
                0 <= r < rest.len() && cell_width(#[trigger] rest[r], col) == column_width(
                    rest,
                    col,
                );
            assert(table[r] == rest[r]);
        }
    }
}

/// The column widths of `res`: one entry per column of the header row, each
/// the character count of the longest cell of that column. A table without
/// rows has no columns and gives an empty list. Where a row is shorter than
/// the header, the cells it lacks count as empty; where it is longer, the
/// cells beyond the header are not measured.
pub fn field_lengths(res: &Vec<Vec<String>>) -> (lengths: Vec<usize>)
    ensures
        is_widths_of(lengths@, res.deep_view()),
{
    let ghost table = res.deep_view();
    if res.len() == 0 {
        return Vec::new();
    }
    let field_number = res[0].len();
    assert(table[0].len() == field_number);
    let zero: usize = 0;
    let mut lengths = vec![zero; field_number];
    assert(table.take(0).len() == 0);
    let mut r: usize = 0;
    while r < res.len()
        invariant
            r <= res.len(),
            table == res.deep_view(),
            table.len() > 0,
            field_number == table[0].len(),
            lengths.len() == field_number,
            forall|c: int|
                0 <= c < field_number ==> #[trigger] lengths[c] == column_width(
                    table.take(r as int),
                    c,
                ),
        decreases res.len() - r,
    {
        let line = &res[r];
        assert(table[r as int] == line.deep_view());
        assert(table.take(r + 1).drop_last() =~= table.take(r as int));
        assert(table.take(r + 1).last() == table[r as int]);
        let mut i: usize = 0;
        while i < field_number
            invariant
                i <= field_number,
                r < table.len(),
                lengths.len() == field_number,
                table[r as int] == line.deep_view(),
                table.take(r + 1).drop_last() == table.take(r as int),
                table.take(r + 1).last() == table[r as int],
                forall|c: int|
                    0 <= c < i ==> #[trigger] lengths[c] == column_width(table.take(r + 1), c),
                forall|c: int|
                    i <= c < field_number ==> #[trigger] lengths[c] == column_width(
                        table.take(r as int),
                        c,
                    ),
            decreases field_number - i,
        {
            if i < line.len() {
                let count = line[i].as_str().unicode_len();
                assert(count == cell_width(table[r as int], i as int));
                if count > lengths[i] {
                    lengths.set(i, count);
                }
            }
            assert(lengths[i as int] == column_width(table.take(r + 1), i as int));
            i += 1;
        }
        r += 1;
    }
    assert(table.take(r as int) =~= table);
    lengths
}

} // verus!
