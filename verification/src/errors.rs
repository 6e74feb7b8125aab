use vstd::prelude::*;

verus! {

/// The ways a whole encode call can fail. Every kind aborts the operation:
/// there is no partial document and no skip-and-continue mode.
#[derive(Clone, Copy, PartialEq, Eq, Structural, Debug)]
pub enum EncodeError {
    /// A field cannot be represented in its target cell kind, e.g. a
    /// date-time outside the spreadsheet format's representable range.
    EncodingError,
    /// The finalize/serialize step cannot produce a complete document.
    SerializationError,
    /// Temporary external storage used during serialization failed.
    IoError,
}

} // verus!
