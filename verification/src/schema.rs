use vstd::prelude::*;

verus! {

/// Number of columns in the fixed report schema.
pub const COLUMN_COUNT: usize = 6;

/// Font size, in points, applied to every cell; also used as the fixed
/// display height of each data row.
pub const FONT_SIZE_POINTS: u8 = 12;

/// Width that every date-time cell contributes to its column, matching the
/// fully expanded `dd/mm/yyyy hh:mm:ss AM/PM` rendering.
pub const DATE_CELL_WIDTH: usize = 26;

/// The two kinds of cell the report knows how to encode.
#[derive(Clone, Copy, PartialEq, Eq, Structural, Debug)]
pub enum CellKind {
    Text,
    Date,
}

/// Kind of the cell written in the given schema column, for the header's
/// data rows alike: the two date-time fields sit in columns 1 and 2.
pub open spec fn spec_column_kind(column: int) -> CellKind {
    if column == 1 || column == 2 {
        CellKind::Date
    } else {
        CellKind::Text
    }
}

pub fn column_kind(column: usize) -> (r: CellKind)
    requires
        column < COLUMN_COUNT,
    ensures
        r == spec_column_kind(column as int),
{
    if column == 1 || column == 2 {
        CellKind::Date
    } else {
        CellKind::Text
    }
}

/// Header label of the given schema column.
pub open spec fn spec_header_label(column: int) -> Seq<char> {
    if column == 0 {
        "Id"@
    } else if column == 1 {
        "StartDate"@
    } else if column == 2 {
        "EndDate"@
    } else if column == 3 {
        "Project"@
    } else if column == 4 {
        "Name"@
    } else {
        "Text"@
    }
}

pub fn header_label(column: usize) -> (r: &'static str)
    requires
        column < COLUMN_COUNT,
    ensures
        r@ == spec_header_label(column as int),
{
    if column == 0 {
        "Id"
    } else if column == 1 {
        "StartDate"
    } else if column == 2 {
        "EndDate"
    } else if column == 3 {
        "Project"
    } else if column == 4 {
        "Name"
    } else {
        "Text"
    }
}

pub open spec fn spec_date_number_format() -> Seq<char> {
    "dd/mm/yyyy hh:mm:ss AM/PM"@
}

/// Display format string applied to the date-time columns.
pub fn date_number_format() -> (r: &'static str)
    ensures
        r@ == spec_date_number_format(),
{
    "dd/mm/yyyy hh:mm:ss AM/PM"
}

} // verus!
