pub mod cells;
pub mod dates;
pub mod errors;
pub mod laws;
pub mod record;
pub mod schema;
pub mod widths;
pub mod workbook;
pub mod writer;

pub use dates::UtcDateTime;
pub use errors::EncodeError;
pub use record::Thing;
pub use workbook::WorkbookPlan;
pub use workbook::encode_workbook;
