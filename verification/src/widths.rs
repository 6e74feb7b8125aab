use vstd::prelude::*;
use vstd::string::StrSliceExecFns;
use crate::schema::{COLUMN_COUNT, header_label, spec_header_label};

verus! {

/// Running maximum display width per column. The tracker holds one entry
/// for every schema column from the moment it is created, so a run that
/// contributes no data rows still yields header-driven widths.
pub struct WidthTracker {
    widths: Vec<usize>,
}

impl View for WidthTracker {
    type V = Seq<usize>;

    closed spec fn view(&self) -> Seq<usize> {
        self.widths@
    }
}

impl WidthTracker {
    /// Create a tracker with one entry per schema column, initialized from
    /// the header label lengths. No column is skipped.
    pub fn new_from_headers() -> (r: WidthTracker)
        ensures
            r@.len() == COLUMN_COUNT,
            forall|c: int|
                0 <= c < COLUMN_COUNT ==> r@[c] as int == spec_header_label(c).len(),
    {
        let mut widths: Vec<usize> = Vec::new();
        let mut column: usize = 0;
        while column < COLUMN_COUNT
            invariant
                column <= COLUMN_COUNT,
                widths@.len() == column,
                forall|c: int| 0 <= c < column ==> widths@[c] as int == spec_header_label(c).len(),
            decreases COLUMN_COUNT - column,
        {
            let label = header_label(column);
            widths.push(label.unicode_len());
            column = column + 1;
        }
        WidthTracker { widths }
    }

    /// Record one cell's width: the tracked maximum for the column rises to
    /// the new width when that is larger, and is otherwise unchanged.
    pub fn record(&mut self, column: usize, width: usize)
        requires
            column < old(self)@.len(),
        ensures
            final(self)@.len() == old(self)@.len(),
            forall|c: int|
                0 <= c < old(self)@.len() && c != column ==> final(self)@[c] == old(self)@[c],
            width > old(self)@[column as int] ==> final(self)@[column as int] == width,
            width <= old(self)@[column as int] ==> final(self)@[column as int] == old(
                self,
            )@[column as int],
    {
        if width > self.widths[column] {
            self.widths.set(column, width);
        }
    }

    /// Hand out the complete width map once all rows are processed.
    pub fn finalize(self) -> (r: Vec<usize>)
        ensures
            r@ == self@,
    {
        self.widths
    }
}

} // verus!
