use vstd::prelude::*;
use crate::cells::{CellModel, spec_cell_of, spec_cell_width};
use crate::dates::UtcDateTime;
use crate::record::Thing;
use crate::schema::{COLUMN_COUNT, DATE_CELL_WIDTH, spec_header_label};
use crate::workbook::{WorkbookPlan, spec_plan_matches};
use crate::writer::{spec_column_width, spec_document_rows, spec_header_row, spec_max_width,
    spec_row_of, spec_rows_view};

verus! {

/// Law: the document always holds one row more than the input: the header
/// row at position 0, then one data row per record.
pub proof fn lemma_row_count(things: Seq<Thing>)
    ensures
        spec_document_rows(things).len() == things.len() + 1,
{
}

/// Law: header and data share one column layout. In every document, the
/// cell in column `c` of the header row is the label of schema column `c`,
/// and the cell in column `c` of data row `i + 1` is the cell record `i`
/// contributes to that same schema column: no header label is offset from
/// its data column.
pub proof fn lemma_header_data_alignment(things: Seq<Thing>, i: int, column: int)
    requires
        0 <= i < things.len(),
        0 <= column < COLUMN_COUNT,
    ensures
        spec_document_rows(things)[0].len() == COLUMN_COUNT,
        spec_document_rows(things)[i + 1].len() == COLUMN_COUNT,
        spec_document_rows(things)[0][column] == CellModel::Text(spec_header_label(column)),
        spec_document_rows(things)[i + 1][column] == spec_cell_of(things[i], column),
{
    assert(spec_document_rows(things)[i + 1] == spec_row_of(things[i]));
}

/// Law: a date-time cell contributes width exactly `DATE_CELL_WIDTH`,
/// whatever date-time it holds.
pub proof fn lemma_date_cell_width(d: UtcDateTime)
    ensures
        spec_cell_width(CellModel::Date(d)) == DATE_CELL_WIDTH as int,
{
}

/// Law: the tracked width of a column covers the header label and every
/// data cell of that column.
pub proof fn lemma_column_width_covers(things: Seq<Thing>, column: int)
    ensures
        spec_column_width(things, column) >= spec_header_label(column).len(),
        forall|i: int|
            0 <= i < things.len() ==> spec_column_width(things, column) >= spec_cell_width(
                spec_cell_of(things[i], column),
            ),
    decreases things.len(),
{
    if things.len() > 0 {
        lemma_column_width_covers(things.drop_last(), column);
        assert forall|i: int|
            0 <= i < things.len() implies spec_column_width(things, column) >= spec_cell_width(
            spec_cell_of(things[i], column),
        ) by {
            if i < things.len() - 1 {
                assert(things.drop_last()[i] == things[i]);
            } else {
                assert(things.last() == things[i]);
            }
        }
    }
}

/// Law: in any plan an input sequence can produce, the finalized display
/// width of a column, in tenths of a character, is at least twelve tenths
/// per character of the header label and of every data cell of that
/// column; that is, at least one and one fifth of the largest observed
/// content width.
pub proof fn lemma_final_width_covers(plan: WorkbookPlan, things: Seq<Thing>, column: int)
    requires
        spec_plan_matches(plan, things),
        0 <= column < COLUMN_COUNT,
    ensures
        12 * plan.column_widths@[column] as int >= 12 * spec_header_label(column).len(),
        forall|i: int|
            0 <= i < things.len() ==> 12 * plan.column_widths@[column] as int >= 12
                * spec_cell_width(spec_cell_of(things[i], column)),
{
    lemma_column_width_covers(things, column);
}

/// Law: encoding is deterministic. Two plans produced from the same input
/// sequence agree on their row count, on every cell value, and on every
/// finalized column width.
pub proof fn lemma_encode_deterministic(a: WorkbookPlan, b: WorkbookPlan, things: Seq<Thing>)
    requires
        spec_plan_matches(a, things),
        spec_plan_matches(b, things),
    ensures
        a.rows@.len() == b.rows@.len(),
        spec_rows_view(a.rows@) == spec_rows_view(b.rows@),
        a.column_widths@ == b.column_widths@,
{
    assert forall|c: int| 0 <= c < COLUMN_COUNT implies a.column_widths@[c]
        == b.column_widths@[c] by {
        assert(a.column_widths@[c] as int == spec_column_width(things, c));
        assert(b.column_widths@[c] as int == spec_column_width(things, c));
    }
    assert(a.column_widths@ =~= b.column_widths@);
}

/// Law: the empty input still yields the header-only document, and every
/// column's tracked width is drawn purely from its header label length.
pub proof fn lemma_empty_input(column: int)
    requires
        0 <= column < COLUMN_COUNT,
    ensures
        spec_document_rows(Seq::<Thing>::empty()) == seq![spec_header_row()],
        spec_column_width(Seq::<Thing>::empty(), column) == spec_header_label(column).len(),
{
    assert(spec_document_rows(Seq::<Thing>::empty()) =~= seq![spec_header_row()]);
}

} // verus!
