use vstd::prelude::*;

verus! {

/// The native return code for a file that could not be handled.
pub const RETCODE_FILE: i32 = 2;

/// Everything an operation of this library can fail with.
#[derive(Debug, Clone, Copy, PartialEq, Eq, Structural)]
pub enum Error {
    /// A native call returned this nonzero code.
    NativeError(i32),
    /// A name holds an embedded terminator character.
    InvalidName,
    /// Two parallel sequences differ in length.
    DimensionMismatch,
    /// A file name ends in no known format suffix.
    UnsupportedFormat,
}

pub type Result<T> = core::result::Result<T, Error>;

/// The outcome that a native return code stands for.
pub open spec fn code_outcome(code: i32) -> Result<()> {
    if code == 0 {
        Ok(())
    } else {
        Err(Error::NativeError(code))
    }
}

/// Turns a native return code into a result: zero is success, anything else
/// is passed on as `NativeError`.
pub fn check_code(code: i32) -> (r: Result<()>)
    ensures
        r == code_outcome(code),
{
    if code != 0 {
        Err(Error::NativeError(code))
    } else {
        Ok(())
    }
}

/// The value a native getter filled in, where its return code says it did.
pub fn check_value<T>(code: i32, value: T) -> (r: Result<T>)
    ensures
        code == 0 ==> r == Ok::<T, Error>(value),
        code != 0 ==> r == Err::<T, Error>(Error::NativeError(code)),
{
    if code != 0 {
        Err(Error::NativeError(code))
    } else {
        Ok(value)
    }
}

impl Error {
    /// The native-style code this error is reported under, where it has one.
    pub fn native_code(&self) -> (r: Option<i32>)
        ensures
            r == match *self {
                Error::NativeError(c) => Some(c),
                Error::UnsupportedFormat => Some(RETCODE_FILE),
                _ => None::<i32>,
            },
    {
        match *self {
            Error::NativeError(c) => Some(c),
            Error::UnsupportedFormat => Some(RETCODE_FILE),
            _ => None,
        }
    }
}

} // verus!
