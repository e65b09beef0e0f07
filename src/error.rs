use vstd::prelude::*;

verus! {

/// Why an identifier could not be made.
#[derive(Debug, PartialEq, Eq)]
pub enum TinyError {
    /// The random source failed.
    RngError { msg: String },
    /// The clock reads a time before the Unix epoch.
    SystemTimeError { msg: String },
    /// The text is not a UUID in its hyphenated 8-4-4-4-12 form.
    MalformedData { msg: String },
}

} // verus!
