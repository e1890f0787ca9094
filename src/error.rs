use vstd::prelude::*;

verus! {

/// The failures of the session stack, each carrying what the caller needs to
/// report it.
#[derive(Debug)]
pub enum Error {
    /// The root session could not be created; holds the library's diagnostic.
    InitializationError(String),
    /// The reader lookup at this index produced no handle.
    ReaderUnavailable(u32),
    /// No card connection could be opened; holds the library's diagnostic.
    ConnectionError(String),
}

} // verus!
