use vstd::prelude::*;

verus! {

/// Native return code of a call that succeeded.
pub const LIBUSB_SUCCESS: i32 = 0;
/// Native code: input/output error.
pub const LIBUSB_ERROR_IO: i32 = -1;
/// Native code: invalid parameter.
pub const LIBUSB_ERROR_INVALID_PARAM: i32 = -2;
/// Native code: access denied (insufficient permissions).
pub const LIBUSB_ERROR_ACCESS: i32 = -3;
/// Native code: no such device (it may have been disconnected).
pub const LIBUSB_ERROR_NO_DEVICE: i32 = -4;
/// Native code: entity not found.
pub const LIBUSB_ERROR_NOT_FOUND: i32 = -5;
/// Native code: resource busy.
pub const LIBUSB_ERROR_BUSY: i32 = -6;
/// Native code: operation timed out.
pub const LIBUSB_ERROR_TIMEOUT: i32 = -7;
/// Native code: overflow.
pub const LIBUSB_ERROR_OVERFLOW: i32 = -8;
/// Native code: pipe error (endpoint stalled).
pub const LIBUSB_ERROR_PIPE: i32 = -9;
/// Native code: system call interrupted.
pub const LIBUSB_ERROR_INTERRUPTED: i32 = -10;
/// Native code: insufficient memory.
pub const LIBUSB_ERROR_NO_MEM: i32 = -11;
/// Native code: operation not supported on this platform.
pub const LIBUSB_ERROR_NOT_SUPPORTED: i32 = -12;
/// Native code: any other error.
pub const LIBUSB_ERROR_OTHER: i32 = -99;

/// The kinds of failure that the library reports.
#[derive(Debug, Clone, Copy, PartialEq, Eq, Structural)]
pub enum Error {
    /// Input/output error.
    Io,
    /// Invalid parameter.
    InvalidParam,
    /// Access denied (insufficient permissions).
    Access,
    /// No such device (it may have been disconnected).
    NoDevice,
    /// Entity not found.
    NotFound,
    /// Resource busy.
    Busy,
    /// Operation timed out.
    Timeout,
    /// Overflow.
    Overflow,
    /// Pipe error: the endpoint stalled.
    Pipe,
    /// System call interrupted.
    Interrupted,
    /// Insufficient memory.
    NoMem,
    /// Operation not supported or unimplemented on this platform.
    NotSupported,
    /// The object is not in a state that allows the operation.
    InvalidState,
    /// Any other error, including native codes that are not documented.
    Other,
}

/// The documented negative codes of the native layer.
pub open spec fn is_documented_code(code: int) -> bool {
    ||| code == LIBUSB_ERROR_IO
    ||| code == LIBUSB_ERROR_INVALID_PARAM
    ||| code == LIBUSB_ERROR_ACCESS
    ||| code == LIBUSB_ERROR_NO_DEVICE
    ||| code == LIBUSB_ERROR_NOT_FOUND
    ||| code == LIBUSB_ERROR_BUSY
    ||| code == LIBUSB_ERROR_TIMEOUT
    ||| code == LIBUSB_ERROR_OVERFLOW
    ||| code == LIBUSB_ERROR_PIPE
    ||| code == LIBUSB_ERROR_INTERRUPTED
    ||| code == LIBUSB_ERROR_NO_MEM
    ||| code == LIBUSB_ERROR_NOT_SUPPORTED
    ||| code == LIBUSB_ERROR_OTHER
}

/// The kind that a native code stands for; every other code is `Other`.
pub open spec fn kind_of_code(code: int) -> Error {
    if code == LIBUSB_ERROR_IO {
        Error::Io
    } else if code == LIBUSB_ERROR_INVALID_PARAM {
        Error::InvalidParam
    } else if code == LIBUSB_ERROR_ACCESS {
        Error::Access
    } else if code == LIBUSB_ERROR_NO_DEVICE {
        Error::NoDevice
    } else if code == LIBUSB_ERROR_NOT_FOUND {
        Error::NotFound
    } else if code == LIBUSB_ERROR_BUSY {
        Error::Busy
    } else if code == LIBUSB_ERROR_TIMEOUT {
        Error::Timeout
    } else if code == LIBUSB_ERROR_OVERFLOW {
        Error::Overflow
    } else if code == LIBUSB_ERROR_PIPE {
        Error::Pipe
    } else if code == LIBUSB_ERROR_INTERRUPTED {
        Error::Interrupted
    } else if code == LIBUSB_ERROR_NO_MEM {
        Error::NoMem
    } else if code == LIBUSB_ERROR_NOT_SUPPORTED {
        Error::NotSupported
    } else {
        Error::Other
    }
}

/// The native code of a kind. `InvalidState` has no native code of its own
/// and is reported to the native side as the generic failure.
pub open spec fn code_of_kind(e: Error) -> i32 {
    match e {
        Error::Io => LIBUSB_ERROR_IO,
        Error::InvalidParam => LIBUSB_ERROR_INVALID_PARAM,
        Error::Access => LIBUSB_ERROR_ACCESS,
        Error::NoDevice => LIBUSB_ERROR_NO_DEVICE,
        Error::NotFound => LIBUSB_ERROR_NOT_FOUND,
        Error::Busy => LIBUSB_ERROR_BUSY,
        Error::Timeout => LIBUSB_ERROR_TIMEOUT,
        Error::Overflow => LIBUSB_ERROR_OVERFLOW,
        Error::Pipe => LIBUSB_ERROR_PIPE,
        Error::Interrupted => LIBUSB_ERROR_INTERRUPTED,
        Error::NoMem => LIBUSB_ERROR_NO_MEM,
        Error::NotSupported => LIBUSB_ERROR_NOT_SUPPORTED,
        Error::InvalidState => LIBUSB_ERROR_OTHER,
        Error::Other => LIBUSB_ERROR_OTHER,
    }
}

/// Translates a native error code into its kind.
pub fn from_libusb(code: i32) -> (r: Error)
    ensures
        r == kind_of_code(code as int),
{
    match code {
        LIBUSB_ERROR_IO => Error::Io,
        LIBUSB_ERROR_INVALID_PARAM => Error::InvalidParam,
        LIBUSB_ERROR_ACCESS => Error::Access,
        LIBUSB_ERROR_NO_DEVICE => Error::NoDevice,
        LIBUSB_ERROR_NOT_FOUND => Error::NotFound,
        LIBUSB_ERROR_BUSY => Error::Busy,
        LIBUSB_ERROR_TIMEOUT => Error::Timeout,
        LIBUSB_ERROR_OVERFLOW => Error::Overflow,
        LIBUSB_ERROR_PIPE => Error::Pipe,
        LIBUSB_ERROR_INTERRUPTED => Error::Interrupted,
        LIBUSB_ERROR_NO_MEM => Error::NoMem,
        LIBUSB_ERROR_NOT_SUPPORTED => Error::NotSupported,
        _ => Error::Other,
    }
}

impl Error {
    /// The native code that stands for this kind.
    pub fn to_libusb(&self) -> (r: i32)
        ensures
            r == code_of_kind(*self),
    {
        match self {
            Error::Io => LIBUSB_ERROR_IO,
            Error::InvalidParam => LIBUSB_ERROR_INVALID_PARAM,
            Error::Access => LIBUSB_ERROR_ACCESS,
            Error::NoDevice => LIBUSB_ERROR_NO_DEVICE,
            Error::NotFound => LIBUSB_ERROR_NOT_FOUND,
            Error::Busy => LIBUSB_ERROR_BUSY,
            Error::Timeout => LIBUSB_ERROR_TIMEOUT,
            Error::Overflow => LIBUSB_ERROR_OVERFLOW,
            Error::Pipe => LIBUSB_ERROR_PIPE,
            Error::Interrupted => LIBUSB_ERROR_INTERRUPTED,
            Error::NoMem => LIBUSB_ERROR_NO_MEM,
            Error::NotSupported => LIBUSB_ERROR_NOT_SUPPORTED,
            Error::InvalidState => LIBUSB_ERROR_OTHER,
            Error::Other => LIBUSB_ERROR_OTHER,
        }
    }
}

/// Reads the return value of a native call: a negative value is an error of
/// the kind that its code stands for, any other value is a success that
/// carries it (a count, a length, or zero).
pub fn check(code: i32) -> (r: Result<i32, Error>)
    ensures
        code >= 0 ==> r == Ok::<i32, Error>(code),
        code < 0 ==> r == Err::<i32, Error>(kind_of_code(code as int)),
{
    if code < 0 {
        Err(from_libusb(code))
    } else {
        Ok(code)
    }
}

/// Translating a documented native code into its kind and back gives the same
/// code; translating any code is total and stable: its kind, taken back to a
/// code and translated again, is the same kind.
pub proof fn lemma_code_round_trip(code: int)
    ensures
        is_documented_code(code) ==> code_of_kind(kind_of_code(code)) as int == code,
        kind_of_code(code_of_kind(kind_of_code(code)) as int) == kind_of_code(code),
{
}

/// Every kind but `InvalidState`, which the native layer never reports, comes
/// back unchanged from its native code.
pub proof fn lemma_kind_round_trip(e: Error)
    requires
        e != Error::InvalidState,
    ensures
        kind_of_code(code_of_kind(e) as int) == e,
        is_documented_code(code_of_kind(e) as int),
{
}

} // verus!
