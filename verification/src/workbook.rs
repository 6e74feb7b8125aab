use vstd::prelude::*;
use crate::cells::CellValue;
use crate::errors::EncodeError;
use crate::record::{Thing, spec_thing_encodable};
use crate::schema::COLUMN_COUNT;
use crate::writer::{RowWriter, WriterState, spec_all_encodable, spec_column_width,
    spec_document_rows, spec_row_of, spec_rows_view};

verus! {

/// The finished plan of one workbook: every cell of every row, in order,
/// and the finalized per-column tracked widths. This is everything
/// observable about the document apart from format constants.
pub struct WorkbookPlan {
    /// Row 0 is the header; row `i + 1` is the data row of input record `i`.
    pub rows: Vec<Vec<CellValue>>,
    /// Tracked maximum width of each schema column.
    pub column_widths: Vec<usize>,
}

/// The plan a given input sequence must produce: rows exactly as
/// `spec_document_rows` lays them out, and one finalized width per schema
/// column.
pub open spec fn spec_plan_matches(plan: WorkbookPlan, things: Seq<Thing>) -> bool {
    &&& spec_rows_view(plan.rows@) == spec_document_rows(things)
    &&& plan.rows@.len() == things.len() + 1
    &&& plan.column_widths@.len() == COLUMN_COUNT
    &&& forall|c: int|
        0 <= c < COLUMN_COUNT ==> plan.column_widths@[c] as int == spec_column_width(things, c)
}

impl WorkbookPlan {
    /// Number of rows in the document, header included.
    pub fn row_count(&self) -> (r: usize)
        ensures
            r == self.rows@.len(),
    {
        self.rows.len()
    }

    /// Final display width of a column, in tenths of a character: the
    /// tracked width padded by the constant multiplier of one and one
    /// fifth, so twelve tenths per tracked character.
    pub fn column_display_width_tenths(&self, column: usize) -> (r: u128)
        requires
            column < self.column_widths@.len(),
        ensures
            r == 12 * self.column_widths@[column as int],
    {
        (self.column_widths[column] as u128) * 12
    }
}

/// Encode an ordered record sequence into a workbook plan: a header row,
/// one data row per record in input order, and finalized column widths.
/// Fails with `EncodingError`, and produces no partial document, exactly
/// when some record holds an unrepresentable date-time.
pub fn encode_workbook(things: &Vec<Thing>) -> (r: Result<WorkbookPlan, EncodeError>)
    ensures
        spec_all_encodable(things@) <==> r is Ok,
        r matches Ok(plan) ==> spec_plan_matches(plan, things@),
        r matches Err(e) ==> e == EncodeError::EncodingError,
{
    let mut writer = RowWriter::new();
    writer.write_header();
    let ghost all = things@;
    let mut i: usize = 0;
    while i < things.len()
        invariant
            i <= all.len(),
            things@ == all,
            writer.spec_state() == WriterState::Body,
            writer.width_model().len() == COLUMN_COUNT,
            writer.rows_model() == spec_document_rows(all.take(i as int)),
            forall|c: int|
                0 <= c < COLUMN_COUNT ==> writer.width_model()[c] as int == spec_column_width(
                    all.take(i as int),
                    c,
                ),
            spec_all_encodable(all.take(i as int)),
        decreases all.len() - i,
    {
        let ghost prefix = all.take(i as int);
        match writer.write_record(&things[i]) {
            Ok(()) => {},
            Err(e) => {
                proof {
                    assert(!spec_thing_encodable(all[i as int]));
                }
                return Err(e);
            },
        }
        proof {
            let next = all.take(i + 1 as int);
            assert(next.drop_last() =~= prefix);
            assert(next.last() == all[i as int]);
            assert(spec_document_rows(next) =~= spec_document_rows(prefix).push(
                spec_row_of(all[i as int]),
            ));
            assert forall|j: int| 0 <= j < next.len() implies spec_thing_encodable(next[j]) by {
                if j < i as int {
                    assert(next[j] == prefix[j]);
                }
            }
        }
        i = i + 1;
    }
    proof {
        assert(all.take(all.len() as int) =~= all);
    }
    let (rows, column_widths) = writer.finish();
    Ok(WorkbookPlan { rows, column_widths })
}

} // verus!
