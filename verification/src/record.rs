use vstd::prelude::*;
use crate::dates::{UtcDateTime, spec_valid_date_time};

verus! {

/// One input record: six fields in fixed schema order, one output data row.
#[derive(Clone, Debug, PartialEq)]
pub struct Thing {
    pub id: String,
    pub start_date: UtcDateTime,
    pub end_date: UtcDateTime,
    pub project: String,
    pub name: String,
    pub text: String,
}

/// A record can be encoded exactly when both of its date-times lie in the
/// spreadsheet format's representable range; text fields never fail.
pub open spec fn spec_thing_encodable(t: Thing) -> bool {
    spec_valid_date_time(t.start_date) && spec_valid_date_time(t.end_date)
}

impl Thing {
    /// Decides whether every field of this record can be encoded.
    pub fn is_encodable(&self) -> (r: bool)
        ensures
            r == spec_thing_encodable(*self),
    {
        self.start_date.is_representable() && self.end_date.is_representable()
    }
}

} // verus!
