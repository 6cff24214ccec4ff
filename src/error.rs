use vstd::prelude::*;

verus! {

/// Why an operation on a serial port failed.
#[derive(Clone, Copy, Debug, PartialEq, Eq, Structural)]
pub enum Error {
    /// The device could not be opened: missing, in use, or access denied.
    NoDevice,
    /// A device name or parameter given by the caller is malformed.
    InvalidInput,
    /// Any other failure reported by the platform, with its error code.
    Io(u32),
    /// A read returned no data within the configured timeout.
    TimedOut,
}

/// The library's view of a driver call's outcome: an error code becomes `Io`.
pub open spec fn lifted<T>(reply: Result<T, u32>) -> Result<T, Error> {
    match reply {
        Ok(v) => Ok(v),
        Err(code) => Err(Error::Io(code)),
    }
}

/// Wraps a platform error code into the library's error.
pub fn os_error(code: u32) -> (r: Error)
    ensures
        r == Error::Io(code),
{
    Error::Io(code)
}

/// Turns a driver call's outcome into the library's result: every failure
/// passes through `os_error`.
pub fn lift<T>(reply: Result<T, u32>) -> (r: Result<T, Error>)
    ensures
        r == lifted(reply),
{
    match reply {
        Ok(v) => Ok(v),
        Err(code) => Err(os_error(code)),
    }
}

} // verus!
