//! Projection of directory records onto an ordered attribute list: a header
//! row with the attribute names, then one row per record with one cell per
//! attribute.

use crate::record::{RawRecord, RecordView};
use vstd::prelude::*;

verus! {

/// One row of a table: its cells, left to right.
pub type Row = Seq<Seq<char>>;

/// A table: the header row first, then the data rows.
pub type Table = Seq<Row>;

/// Every row has as many cells as the first one. A table without rows is
/// rectangular.
pub open spec fn is_rectangular(table: Table) -> bool {
    forall|r: int| 0 <= r < table.len() ==> (#[trigger] table[r]).len() == table[0].len()
}

/// The values of a multi-valued attribute written as one cell: each value on
/// a line of its own, in the order given, repeated values kept.
pub open spec fn joined(values: Seq<Seq<char>>) -> Seq<char>
    decreases values.len(),
{
    if values.len() == 0 {
        Seq::empty()
    } else if values.len() == 1 {
        values[0]
    } else {
        joined(values.drop_last()) + seq!['\n'] + values.last()
    }
}

/// The cell of `record` under `attr`: the joined values where the record
/// holds at least one value for the attribute, `placeholder` where the
/// attribute is missing or holds no value.
pub open spec fn cell_of(record: RecordView, attr: Seq<char>, placeholder: Seq<char>) -> Seq<
    char,
> {
    if record.contains_key(attr) && record[attr].len() > 0 {
        joined(record[attr])
    } else {
        placeholder
    }
}

/// The row of `record`: one cell per entry of `attrs`, in the order of
/// `attrs`. A name listed twice gives two equal cells.
pub open spec fn row_of(record: RecordView, attrs: Seq<Seq<char>>, placeholder: Seq<char>) -> Row {
    Seq::new(attrs.len(), |c: int| cell_of(record, attrs[c], placeholder))
}

/// The table of `records` under `attrs`: `attrs` itself as the header, then
/// the row of each record, in the order of `records`.
pub open spec fn table_of(
    attrs: Seq<Seq<char>>,
    records: Seq<RecordView>,
    placeholder: Seq<char>,
) -> Table {
    seq![attrs] + Seq::new(records.len(), |r: int| row_of(records[r], attrs, placeholder))
}

/// A table has one row more than there are records, and every row, the
/// header included, has one cell per attribute. Without records the table
/// is the header alone.
pub proof fn lemma_table_shape(
    attrs: Seq<Seq<char>>,
    records: Seq<RecordView>,
    placeholder: Seq<char>,
)
    ensures
        table_of(attrs, records, placeholder).len() == records.len() + 1,
        forall|r: int|
            0 <= r <= records.len() ==> (#[trigger] table_of(attrs, records, placeholder)[r]).len()
                == attrs.len(),
        table_of(attrs, records, placeholder)[0] == attrs,
        is_rectangular(table_of(attrs, records, placeholder)),
        records.len() == 0 ==> table_of(attrs, records, placeholder) == seq![attrs],
{
    if records.len() == 0 {
        assert(table_of(attrs, records, placeholder) =~= seq![attrs]);
    }
}

/// Adding one more value to an attribute that has some adds a line break
/// and that value at the end of the cell.
pub proof fn lemma_joined_push(values: Seq<Seq<char>>, value: Seq<char>)
    requires
        values.len() > 0,
    ensures
        joined(values.push(value)) == joined(values) + seq!['\n'] + value,
{
    assert(values.push(value).drop_last() =~= values);
}

/// Where a record holds the three values `v1`, `v2`, `v3` for an attribute,
/// its cell under that attribute is `v1`, a line break, `v2`, a line break
/// and `v3`: the values in their order, none dropped, even if two are equal.
pub proof fn lemma_three_values_cell(
    attrs: Seq<Seq<char>>,
    records: Seq<RecordView>,
    placeholder: Seq<char>,
    r: int,
    c: int,
    v1: Seq<char>,
    v2: Seq<char>,
    v3: Seq<char>,
)
    requires
        0 <= r < records.len(),
        0 <= c < attrs.len(),
        records[r].contains_key(attrs[c]),
        records[r][attrs[c]] == seq![v1, v2, v3],
    ensures
        table_of(attrs, records, placeholder)[r + 1][c] == v1 + seq!['\n'] + v2 + seq!['\n'] + v3,
{
    assert(seq![v1].push(v2) =~= seq![v1, v2]);
    assert(seq![v1, v2].push(v3) =~= seq![v1, v2, v3]);
    lemma_joined_push(seq![v1], v2);
    lemma_joined_push(seq![v1, v2], v3);
}

/// Where a record lacks an attribute, or holds no value for it, its cell
/// under that attribute is the placeholder, character for character.
pub proof fn lemma_missing_value_cell(
    attrs: Seq<Seq<char>>,
    records: Seq<RecordView>,
    placeholder: Seq<char>,
    r: int,
    c: int,
)
    requires
        0 <= r < records.len(),
        0 <= c < attrs.len(),
        !records[r].contains_key(attrs[c]) || records[r][attrs[c]].len() == 0,
    ensures
        table_of(attrs, records, placeholder)[r + 1][c] == placeholder,
{
}

/// Joins `values` with line breaks.
pub fn join_values(values: &Vec<String>) -> (line: String)
    ensures
        line@ == joined(values.deep_view()),
{
    if values.len() == 0 {
        return String::new();
    }
    let ghost all = values.deep_view();
    let mut line = values[0].clone();
    let mut i: usize = 1;
    while i < values.len()
        invariant
            1 <= i <= values.len(),
            all == values.deep_view(),
            line@ == joined(all.take(i as int)),
        decreases values.len() - i,
    {
        proof {
            reveal_strlit("\n");
            assert(all.take(i + 1).drop_last() =~= all.take(i as int));
            assert(all.take(i + 1).last() == values[i as int]@);
        }
        line.append("\n");
        line.append(values[i].as_str());
        i += 1;
    }
    assert(all.take(i as int) =~= all);
    line
}

/// Writes the cell of `record` under `attr`.
pub fn format_cell(record: &RawRecord, attr: &str, placeholder: &str) -> (cell: String)
    ensures
        cell@ == cell_of(record@, attr@, placeholder@),
{
    match record.get(attr) {
        Some(values) => {
            if values.len() > 0 {
                join_values(values)
            } else {
                placeholder.to_owned()
            }
        },
        None => placeholder.to_owned(),
    }
}

/// Writes the row of `record`: one cell per attribute of `attrs`.
pub fn format_row(record: &RawRecord, attrs: &Vec<String>, placeholder: &str) -> (row: Vec<String>)
    ensures
        row.deep_view() == row_of(record@, attrs.deep_view(), placeholder@),
{
    let mut row: Vec<String> = Vec::new();
    let mut c: usize = 0;
    while c < attrs.len()
        invariant
            c <= attrs.len(),
            row.len() == c,
            forall|k: int|
                0 <= k < c ==> (#[trigger] row[k])@ == cell_of(
                    record@,
                    attrs[k]@,
                    placeholder@,
                ),
        decreases attrs.len() - c,
    {
        let cell = format_cell(record, attrs[c].as_str(), placeholder);
        row.push(cell);
        c += 1;
    }
    assert(row.deep_view() =~= row_of(record@, attrs.deep_view(), placeholder@));
    row
}

/// A copy of `names`, string by string.
fn copy_names(names: &Vec<String>) -> (copy: Vec<String>)
    ensures
        copy.deep_view() == names.deep_view(),
{
    let mut copy: Vec<String> = Vec::new();
    let mut i: usize = 0;
    while i < names.len()
        invariant
            i <= names.len(),
            copy.len() == i,
            forall|k: int| 0 <= k < i ==> (#[trigger] copy[k])@ == names[k]@,
        decreases names.len() - i,
    {
        copy.push(names[i].clone());
        i += 1;
    }
    assert(copy.deep_view() =~= names.deep_view());
    copy
}

/// Lays `records` out as a table under `attrs`: the header row is `attrs`,
/// and each record gives one row, in the order of `records`. A cell holds
/// the values of its attribute joined by line breaks, or `placeholder`
/// where the record has no value for it. Every row is as long as `attrs`.
pub fn normalize(attrs: &Vec<String>, records: &Vec<RawRecord>, placeholder: &str) -> (table: Vec<
    Vec<String>,
>)
    ensures
        table.deep_view() == table_of(attrs.deep_view(), records.deep_view(), placeholder@),
        table.len() == records.len() + 1,
        forall|r: int| 0 <= r < table.len() ==> (#[trigger] table[r]).len() == attrs.len(),
{
    let ghost want = table_of(attrs.deep_view(), records.deep_view(), placeholder@);
    let mut table: Vec<Vec<String>> = Vec::new();
    table.push(copy_names(attrs));
    let mut r: usize = 0;
    while r < records.len()
        invariant
            r <= records.len(),
            table.len() == r + 1,
            want == table_of(attrs.deep_view(), records.deep_view(), placeholder@),
            forall|k: int| 0 <= k < table.len() ==> (#[trigger] table[k]).deep_view() == want[k],
        decreases records.len() - r,
    {
        let row = format_row(&records[r], attrs, placeholder);
        table.push(row);
        r += 1;
    }
    assert(table.deep_view() =~= want);
    assert forall|k: int| 0 <= k < table.len() implies (#[trigger] table[k]).len()
        == attrs.len() by {
        assert(table[k].deep_view().len() == want[k].len());
    }
    table
}

/// The marker that `format_data` writes where a record has no value for an
/// attribute.
pub const DEFAULT_PLACEHOLDER: &'static str = "<vide>";

/// Lays `res` out as a table under `attrs`, as `normalize` does, with
/// `DEFAULT_PLACEHOLDER` in the cells that have no value.
pub fn format_data(attrs: &Vec<String>, res: Vec<RawRecord>) -> (lines: Vec<Vec<String>>)
    ensures
        lines.deep_view() == table_of(attrs.deep_view(), res.deep_view(), DEFAULT_PLACEHOLDER@),
        lines.len() == res.len() + 1,
        forall|r: int| 0 <= r < lines.len() ==> (#[trigger] lines[r]).len() == attrs.len(),
{
    normalize(attrs, &res, DEFAULT_PLACEHOLDER)
}

/// Two calls of `normalize` on the same attributes, records and placeholder
/// return equal tables: as many rows, as many cells in each row, the same
/// characters in each cell. No call leaves anything behind for the next.
pub proof fn lemma_normalize_twice(
    attrs: &Vec<String>,
    records: &Vec<RawRecord>,
    placeholder: &str,
    first: Vec<Vec<String>>,
    second: Vec<Vec<String>>,
)
    requires
        call_ensures(normalize, (attrs, records, placeholder), first),
        call_ensures(normalize, (attrs, records, placeholder), second),
    ensures
        first.deep_view() == second.deep_view(),
        first.len() == second.len(),
        forall|r: int| 0 <= r < first.len() ==> (#[trigger] first[r]).len() == second[r].len(),
        forall|r: int, c: int|
            0 <= r < first.len() && 0 <= c < first[r].len() ==> (#[trigger] first[r][c])@
                == second[r][c]@,
{
    assert(first.deep_view().len() == second.deep_view().len());
    assert forall|r: int| 0 <= r < first.len() implies (#[trigger] first[r]).len()
        == second[r].len() by {
        assert(first.deep_view()[r] == second.deep_view()[r]);
        assert(first[r].deep_view().len() == second[r].deep_view().len());
    }
    assert forall|r: int, c: int| 0 <= r < first.len() && 0 <= c < first[r].len() implies (
    #[trigger] first[r][c])@ == second[r][c]@ by {
        assert(first.deep_view()[r] == second.deep_view()[r]);
        assert(first[r].deep_view()[c] == second[r].deep_view()[c]);
    }
}

} // verus!
