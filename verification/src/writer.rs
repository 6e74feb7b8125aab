use vstd::prelude::*;
use vstd::pervasive::unreached;
use vstd::string::StringExecFns;
use crate::cells::{CellModel, CellValue, encode_date_cell, encode_text_cell, spec_cell_of,
    spec_cell_width};
use crate::errors::EncodeError;
use crate::record::{Thing, spec_thing_encodable};
use crate::schema::{COLUMN_COUNT, header_label, spec_header_label};
use crate::widths::WidthTracker;

verus! {

/// The header row: the label of each schema column, as a text cell, in
/// column order.
pub open spec fn spec_header_row() -> Seq<CellModel> {
    Seq::new(COLUMN_COUNT as nat, |c: int| CellModel::Text(spec_header_label(c)))
}

/// The data row a record contributes: its six cells in column order.
pub open spec fn spec_row_of(t: Thing) -> Seq<CellModel> {
    Seq::new(COLUMN_COUNT as nat, |c: int| spec_cell_of(t, c))
}

/// The whole document body: the header row at row 0, then one data row per
/// record, in input order.
pub open spec fn spec_document_rows(things: Seq<Thing>) -> Seq<Seq<CellModel>> {
    seq![spec_header_row()] + things.map_values(|t: Thing| spec_row_of(t))
}

/// The larger of two widths.
pub open spec fn spec_max_width(a: int, b: int) -> int {
    if b > a {
        b
    } else {
        a
    }
}

/// Final tracked width of a column: the largest width among the header
/// label and every data cell written into that column.
pub open spec fn spec_column_width(things: Seq<Thing>, column: int) -> int
    decreases things.len(),
{
    if things.len() == 0 {
        spec_header_label(column).len() as int
    } else {
        spec_max_width(
            spec_column_width(things.drop_last(), column),
            spec_cell_width(spec_cell_of(things.last(), column)),
        )
    }
}

/// Model of one materialized row.
pub open spec fn spec_row_view(row: Vec<CellValue>) -> Seq<CellModel> {
    row@.map_values(|cv: CellValue| cv@)
}

/// Model of a materialized row list.
pub open spec fn spec_rows_view(rows: Seq<Vec<CellValue>>) -> Seq<Seq<CellModel>> {
    rows.map_values(|row: Vec<CellValue>| spec_row_view(row))
}

/// Whether every record of the sequence can be encoded.
pub open spec fn spec_all_encodable(things: Seq<Thing>) -> bool {
    forall|i: int| 0 <= i < things.len() ==> spec_thing_encodable(things[i])
}

/// The writer's two states: the header row is emitted exactly once, before
/// any data row.
#[derive(Clone, Copy, PartialEq, Eq, Structural, Debug)]
pub enum WriterState {
    Header,
    Body,
}

/// Emits the header row and the data rows, in order, feeding every cell's
/// width into the column width tracker.
pub struct RowWriter {
    state: WriterState,
    rows: Vec<Vec<CellValue>>,
    tracker: WidthTracker,
}

impl RowWriter {
    pub closed spec fn spec_state(&self) -> WriterState {
        self.state
    }

    pub closed spec fn rows_model(&self) -> Seq<Seq<CellModel>> {
        spec_rows_view(self.rows@)
    }

    pub closed spec fn width_model(&self) -> Seq<usize> {
        self.tracker@
    }

    /// A fresh writer: no rows yet, and one width entry per schema column,
    /// already initialized from the header label lengths so that no column
    /// is skipped even when no data row follows.
    pub fn new() -> (r: RowWriter)
        ensures
            r.spec_state() == WriterState::Header,
            r.rows_model() == Seq::<Seq<CellModel>>::empty(),
            r.width_model().len() == COLUMN_COUNT,
            forall|c: int|
                0 <= c < COLUMN_COUNT ==> r.width_model()[c] as int == spec_header_label(c).len(),
    {
        let r = RowWriter {
            state: WriterState::Header,
            rows: Vec::new(),
            tracker: WidthTracker::new_from_headers(),
        };
        proof {
            assert(r.rows_model() =~= Seq::<Seq<CellModel>>::empty());
        }
        r
    }

    /// Header transition: write each schema column's label as a text cell
    /// into row 0 and register its width with the tracker.
    pub fn write_header(&mut self)
        requires
            old(self).spec_state() == WriterState::Header,
            old(self).rows_model().len() == 0,
            old(self).width_model().len() == COLUMN_COUNT,
            forall|c: int|
                0 <= c < COLUMN_COUNT ==> old(self).width_model()[c] as int == spec_header_label(
                    c,
                ).len(),
        ensures
            final(self).spec_state() == WriterState::Body,
            final(self).rows_model() == seq![spec_header_row()],
            final(self).width_model() == old(self).width_model(),
    {
        let mut row: Vec<CellValue> = Vec::new();
        let mut column: usize = 0;
        while column < COLUMN_COUNT
            invariant
                column <= COLUMN_COUNT,
                row@.len() == column,
                forall|c: int|
                    0 <= c < column ==> row@[c]@ == CellModel::Text(spec_header_label(c)),
                self.spec_state() == old(self).spec_state(),
                self.rows_model() == old(self).rows_model(),
                self.rows_model().len() == 0,
                self.width_model() == old(self).width_model(),
                self.width_model().len() == COLUMN_COUNT,
                forall|c: int|
                    0 <= c < COLUMN_COUNT ==> self.width_model()[c] as int == spec_header_label(
                        c,
                    ).len(),
            decreases COLUMN_COUNT - column,
        {
            let label = header_label(column);
            let width = label.unicode_len();
            row.push(CellValue::Text(String::from_str(label)));
            self.tracker.record(column, width);
            proof {
                assert(self.width_model() =~= old(self).width_model());
            }
            column = column + 1;
        }
        self.rows.push(row);
        self.state = WriterState::Body;
        proof {
            assert(spec_row_view(row) =~= spec_header_row());
            assert(self.rows_model() =~= seq![spec_header_row()]);
        }
    }

    /// Body transition for one record: encode each field in schema order,
    /// append the resulting data row, and register each cell's width.
    /// A record with an unrepresentable date-time fails with
    /// `EncodingError` and leaves the writer unchanged.
    pub fn write_record(&mut self, thing: &Thing) -> (r: Result<(), EncodeError>)
        requires
            old(self).spec_state() == WriterState::Body,
            old(self).width_model().len() == COLUMN_COUNT,
        ensures
            final(self).spec_state() == WriterState::Body,
            final(self).width_model().len() == COLUMN_COUNT,
            spec_thing_encodable(*thing) <==> r is Ok,
            r is Ok ==> final(self).rows_model() == old(self).rows_model().push(
                spec_row_of(*thing),
            ),
            r is Ok ==> forall|c: int|
                0 <= c < COLUMN_COUNT ==> final(self).width_model()[c] as int == spec_max_width(
                    old(self).width_model()[c] as int,
                    spec_cell_width(spec_cell_of(*thing, c)),
                ),
            r is Err ==> r == Err::<(), EncodeError>(EncodeError::EncodingError)
                && final(self).rows_model() == old(self).rows_model()
                && final(self).width_model() == old(self).width_model(),
    {
        if !thing.is_encodable() {
            return Err(EncodeError::EncodingError);
        }
        let mut row: Vec<CellValue> = Vec::new();

        let (cell0, w0) = encode_text_cell(&thing.id);
        row.push(cell0);
        self.tracker.record(0, w0);

        let (cell1, w1) = match encode_date_cell(&thing.start_date) {
            Ok(p) => p,
            Err(_) => unreached(),
        };
        row.push(cell1);
        self.tracker.record(1, w1);

        let (cell2, w2) = match encode_date_cell(&thing.end_date) {
            Ok(p) => p,
            Err(_) => unreached(),
        };
        row.push(cell2);
        self.tracker.record(2, w2);

        let (cell3, w3) = encode_text_cell(&thing.project);
        row.push(cell3);
        self.tracker.record(3, w3);

        let (cell4, w4) = encode_text_cell(&thing.name);
        row.push(cell4);
        self.tracker.record(4, w4);

        let (cell5, w5) = encode_text_cell(&thing.text);
        row.push(cell5);
        self.tracker.record(5, w5);

        self.rows.push(row);
        proof {
            assert(spec_row_view(row) =~= spec_row_of(*thing));
            assert(self.rows_model() =~= old(self).rows_model().push(spec_row_of(*thing)));
        }
        Ok(())
    }

    /// Hand out the accumulated rows and the finalized width map.
    pub fn finish(self) -> (r: (Vec<Vec<CellValue>>, Vec<usize>))
        ensures
            spec_rows_view(r.0@) == self.rows_model(),
            r.1@ == self.width_model(),
    {
        let RowWriter { state: _, rows, tracker } = self;
        let widths = tracker.finalize();
        (rows, widths)
    }
}

} // verus!
