use vstd::prelude::*;
use crate::error::Error;

verus! {

/// A factory call of the device library acquired its resource: the status is
/// not negative and the handle it wrote is not null.
pub open spec fn acquired(status: i32, is_null: bool) -> bool {
    status >= 0 && !is_null
}

/// Decides whether a factory call acquired its resource.
pub fn handle_acquired(status: i32, is_null: bool) -> (r: bool)
    ensures
        r == acquired(status, is_null),
{
    status >= 0 && !is_null
}

/// The outcome of creating the root session: the handle when it was
/// acquired, else an initialization error with the diagnostic that
/// `describe` gives for the status. `describe` is only called on failure.
pub fn open_context<H, D: FnOnce(i32) -> String>(
    status: i32,
    handle: H,
    is_null: bool,
    describe: D,
) -> (r: Result<H, Error>)
    requires
        !acquired(status, is_null) ==> describe.requires((status,)),
    ensures
        r is Ok <==> acquired(status, is_null),
        acquired(status, is_null) ==> r == Ok::<H, Error>(handle),
        !acquired(status, is_null) ==> (r matches Err(Error::InitializationError(text))
            && describe.ensures((status,), text)),
{
    if handle_acquired(status, is_null) {
        Ok(handle)
    } else {
        Err(Error::InitializationError(describe(status)))
    }
}

/// The outcome of connecting to the card in a reader: the connection handle
/// when it was acquired, else a connection error with the diagnostic that
/// `describe` gives for the status. `describe` is only called on failure.
pub fn open_card<H, D: FnOnce(i32) -> String>(
    status: i32,
    handle: H,
    is_null: bool,
    describe: D,
) -> (r: Result<H, Error>)
    requires
        !acquired(status, is_null) ==> describe.requires((status,)),
    ensures
        r is Ok <==> acquired(status, is_null),
        acquired(status, is_null) ==> r == Ok::<H, Error>(handle),
        !acquired(status, is_null) ==> (r matches Err(Error::ConnectionError(text))
            && describe.ensures((status,), text)),
{
    if handle_acquired(status, is_null) {
        Ok(handle)
    } else {
        Err(Error::ConnectionError(describe(status)))
    }
}

/// The outcome of looking up the reader at `index`: its handle unless the
/// lookup gave none.
pub fn reader_at<H>(index: u32, handle: H, is_null: bool) -> (r: Result<H, Error>)
    ensures
        !is_null ==> r == Ok::<H, Error>(handle),
        is_null ==> r == Err::<H, Error>(Error::ReaderUnavailable(index)),
{
    if is_null {
        Err(Error::ReaderUnavailable(index))
    } else {
        Ok(handle)
    }
}

} // verus!
