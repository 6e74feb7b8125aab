use vstd::prelude::*;
use vstd::string::StrSliceExecFns;
use crate::dates::{UtcDateTime, spec_valid_date_time};
use crate::errors::EncodeError;
use crate::record::Thing;
use crate::schema::DATE_CELL_WIDTH;

verus! {

/// A typed cell value, ready to be written into the worksheet.
#[derive(Clone, Debug, PartialEq)]
pub enum CellValue {
    Text(String),
    Date(UtcDateTime),
}

/// Mathematical model of a cell: the text as a character sequence, or the
/// decomposed date-time.
pub enum CellModel {
    Text(Seq<char>),
    Date(UtcDateTime),
}

impl View for CellValue {
    type V = CellModel;

    open spec fn view(&self) -> CellModel {
        match self {
            CellValue::Text(s) => CellModel::Text(s@),
            CellValue::Date(d) => CellModel::Date(*d),
        }
    }
}

/// Width a cell contributes to its column: text cells contribute their
/// character count, date-time cells always contribute `DATE_CELL_WIDTH`.
pub open spec fn spec_cell_width(c: CellModel) -> int {
    match c {
        CellModel::Text(s) => s.len() as int,
        CellModel::Date(_) => DATE_CELL_WIDTH as int,
    }
}

/// The cell a record contributes to the given schema column.
pub open spec fn spec_cell_of(t: Thing, column: int) -> CellModel {
    if column == 0 {
        CellModel::Text(t.id@)
    } else if column == 1 {
        CellModel::Date(t.start_date)
    } else if column == 2 {
        CellModel::Date(t.end_date)
    } else if column == 3 {
        CellModel::Text(t.project@)
    } else if column == 4 {
        CellModel::Text(t.name@)
    } else {
        CellModel::Text(t.text@)
    }
}

/// Encode a text field: the cell carries the raw string, and the width
/// contribution is the character count (not the byte count).
pub fn encode_text_cell(data: &String) -> (r: (CellValue, usize))
    ensures
        r.0@ == CellModel::Text(data@),
        r.1 as int == spec_cell_width(r.0@),
{
    let width = data.as_str().unicode_len();
    (CellValue::Text(data.clone()), width)
}

/// Encode a date-time field: fails with `EncodingError` when the date-time
/// is outside the representable range; otherwise the cell carries the
/// decomposed date-time and contributes the fixed date width.
pub fn encode_date_cell(date: &UtcDateTime) -> (r: Result<(CellValue, usize), EncodeError>)
    ensures
        spec_valid_date_time(*date) <==> r is Ok,
        r matches Ok(cell) ==> cell.0@ == CellModel::Date(*date) && cell.1 == DATE_CELL_WIDTH,
        r matches Err(e) ==> e == EncodeError::EncodingError,
{
    if date.is_representable() {
        Ok((CellValue::Date(*date), DATE_CELL_WIDTH))
    } else {
        Err(EncodeError::EncodingError)
    }
}

} // verus!
