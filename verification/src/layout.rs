//! Sizes and styles for drawing a table from its column widths.
//!
//! These are choices of display that sit on top of a table: the table and
//! its widths always cover every column. What is drawn leaves out the last
//! column, which carries the identifier added to every record.

use vstd::prelude::*;

verus! {

/// The sum of `widths`.
pub open spec fn total(widths: Seq<usize>) -> nat
    decreases widths.len(),
{
    if widths.len() == 0 {
        0
    } else {
        total(widths.drop_last()) + widths.last() as nat
    }
}

/// The widths of the columns that are drawn: all but the last.
pub open spec fn displayed(lengths: Seq<usize>) -> Seq<usize>
    recommends
        lengths.len() > 0,
{
    lengths.drop_last()
}

/// The sum of the first `n` widths is at most the sum of all of them.
proof fn lemma_total_prefix(widths: Seq<usize>, n: int)
    requires
        0 <= n <= widths.len(),
    ensures
        total(widths.take(n)) <= total(widths),
    decreases widths.len(),
{
    if n == widths.len() {
        assert(widths.take(n) =~= widths);
    } else {
        assert(widths.drop_last().take(n) =~= widths.take(n));
        lemma_total_prefix(widths.drop_last(), n);
    }
}

/// The width in pixels of the block that holds a table: the summed widths
/// of the displayed columns, times `scale` pixels per character. There is
/// none for a table without columns, nor where the number does not fit.
pub fn container_width(lengths: &Vec<usize>, scale: usize) -> (pixels: Option<usize>)
    ensures
        pixels is Some <==> lengths.len() > 0 && total(displayed(lengths@)) * scale <= usize::MAX,
        pixels matches Some(px) ==> px == total(displayed(lengths@)) * scale,
{
    if lengths.len() == 0 {
        return None;
    }
    if scale == 0 {
        return Some(0);
    }
    let ghost shown = displayed(lengths@);
    assert(total(shown) <= total(shown) * scale) by (nonlinear_arith)
        requires
            scale >= 1,
    ;
    let mut total_width: usize = 0;
    let mut i: usize = 0;
    while i < lengths.len() - 1
        invariant
            lengths.len() > 0,
            i <= lengths.len() - 1,
            shown == displayed(lengths@),
            total(shown) <= total(shown) * scale,
            total_width == total(shown.take(i as int)),
        decreases lengths.len() - i,
    {
        proof {
            lemma_total_prefix(shown, i + 1);
            assert(shown.take(i + 1).drop_last() =~= shown.take(i as int));
        }
        match total_width.checked_add(lengths[i]) {
            Some(sum) => {
                total_width = sum;
            },
            None => {
                return None;
            },
        }
        i += 1;
    }
    assert(shown.take(i as int) =~= shown);
    total_width.checked_mul(scale)
}

/// The width in pixels of each displayed column: its width in characters
/// times `scale` pixels per character. There is none for a table without
/// columns, nor where one of the numbers does not fit.
pub fn field_widths(lengths: &Vec<usize>, scale: usize) -> (pixels: Option<Vec<usize>>)
    ensures
        pixels is Some <==> lengths.len() > 0 && forall|i: int|
            0 <= i < lengths.len() - 1 ==> #[trigger] lengths[i] * scale <= usize::MAX,
        pixels matches Some(px) ==> px.len() == lengths.len() - 1 && forall|i: int|
            0 <= i < px.len() ==> #[trigger] px[i] == lengths[i] * scale,
{
    if lengths.len() == 0 {
        return None;
    }
    let mut pixels: Vec<usize> = Vec::new();
    let mut i: usize = 0;
    while i < lengths.len() - 1
        invariant
            lengths.len() > 0,
            i <= lengths.len() - 1,
            pixels.len() == i,
            forall|k: int| 0 <= k < i ==> #[trigger] lengths[k] * scale <= usize::MAX,
            forall|k: int| 0 <= k < i ==> #[trigger] pixels[k] == lengths[k] * scale,
        decreases lengths.len() - i,
    {
        match lengths[i].checked_mul(scale) {
            Some(width) => {
                pixels.push(width);
            },
            None => {
                assert(lengths[i as int] * scale > usize::MAX);
                return None;
            },
        }
        i += 1;
    }
    Some(pixels)
}

/// How a row is drawn.
#[derive(Clone, Copy, Debug, PartialEq, Eq, Structural)]
pub struct RowStyle {
    /// The row is the header of its table.
    pub header: bool,
    /// The row takes the first of the two background colours of its table;
    /// otherwise the second.
    pub first_color: bool,
}

/// The style of row `index`: row 0 is the header, and the two background
/// colours alternate from row to row, the header taking the first.
pub fn row_style(index: usize) -> (style: RowStyle)
    ensures
        style.header == (index == 0),
        style.first_color == (index % 2 == 0),
{
    RowStyle { header: index == 0, first_color: index % 2 == 0 }
}

} // verus!
