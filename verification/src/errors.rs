//! The typed error model: a closed classification of the driver's error
//! codes plus the free-text message the driver reported at failure time.

use vstd::prelude::*;
use vstd::string::StringExecFns;
use crate::native::{
    ERC_NO_ERROR, ERC_UNKNOWN, ERC_API_LOCK_TIMEOUT, ERC_ALREADY_OPENED, ERC_NOT_SUPPORTED,
    ERC_INVALID_PARAMETER_0, ERC_INVALID_PARAMETER_1, ERC_INVALID_PARAMETER_2,
    ERC_INVALID_PARAMETER_3, ERC_INVALID_PARAMETER_4,
};

verus! {

/// Classification of a native failure, mirroring the driver's error-code
/// space one for one. `Unknown` also absorbs every code outside that space.
#[derive(Clone, Copy, PartialEq, Eq, Structural, Debug)]
pub enum ErrorKind {
    NoError,
    Unknown,
    ApiLockTimeout,
    AlreadyOpened,
    NotSupported,
    InvalidParameter0,
    InvalidParameter1,
    InvalidParameter2,
    InvalidParameter3,
    InvalidParameter4,
}

/// The native error code that stands for `k`.
pub open spec fn spec_code_of_kind(k: ErrorKind) -> i32 {
    match k {
        ErrorKind::NoError => ERC_NO_ERROR,
        ErrorKind::Unknown => ERC_UNKNOWN,
        ErrorKind::ApiLockTimeout => ERC_API_LOCK_TIMEOUT,
        ErrorKind::AlreadyOpened => ERC_ALREADY_OPENED,
        ErrorKind::NotSupported => ERC_NOT_SUPPORTED,
        ErrorKind::InvalidParameter0 => ERC_INVALID_PARAMETER_0,
        ErrorKind::InvalidParameter1 => ERC_INVALID_PARAMETER_1,
        ErrorKind::InvalidParameter2 => ERC_INVALID_PARAMETER_2,
        ErrorKind::InvalidParameter3 => ERC_INVALID_PARAMETER_3,
        ErrorKind::InvalidParameter4 => ERC_INVALID_PARAMETER_4,
    }
}

/// The classification of a native error code; codes outside the driver's
/// documented space classify as `Unknown`.
pub open spec fn spec_kind_of_code(code: i32) -> ErrorKind {
    if code == ERC_NO_ERROR {
        ErrorKind::NoError
    } else if code == ERC_API_LOCK_TIMEOUT {
        ErrorKind::ApiLockTimeout
    } else if code == ERC_ALREADY_OPENED {
        ErrorKind::AlreadyOpened
    } else if code == ERC_NOT_SUPPORTED {
        ErrorKind::NotSupported
    } else if code == ERC_INVALID_PARAMETER_0 {
        ErrorKind::InvalidParameter0
    } else if code == ERC_INVALID_PARAMETER_1 {
        ErrorKind::InvalidParameter1
    } else if code == ERC_INVALID_PARAMETER_2 {
        ErrorKind::InvalidParameter2
    } else if code == ERC_INVALID_PARAMETER_3 {
        ErrorKind::InvalidParameter3
    } else if code == ERC_INVALID_PARAMETER_4 {
        ErrorKind::InvalidParameter4
    } else {
        ErrorKind::Unknown
    }
}

/// The fixed description of each error classification.
pub open spec fn spec_kind_text(k: ErrorKind) -> Seq<char> {
    match k {
        ErrorKind::NoError => "No error"@,
        ErrorKind::Unknown => "Unknown error"@,
        ErrorKind::ApiLockTimeout => "API lock timeout"@,
        ErrorKind::AlreadyOpened => "Device is already in use"@,
        ErrorKind::NotSupported => "Operation is not supported"@,
        ErrorKind::InvalidParameter0 => "Parameter #0 is invalid"@,
        ErrorKind::InvalidParameter1 => "Parameter #1 is invalid"@,
        ErrorKind::InvalidParameter2 => "Parameter #2 is invalid"@,
        ErrorKind::InvalidParameter3 => "Parameter #3 is invalid"@,
        ErrorKind::InvalidParameter4 => "Parameter #4 is invalid"@,
    }
}

impl ErrorKind {
    /// The native error code this classification stands for.
    pub fn code(self) -> (c: i32)
        ensures
            c == spec_code_of_kind(self),
    {
        match self {
            ErrorKind::NoError => ERC_NO_ERROR,
            ErrorKind::Unknown => ERC_UNKNOWN,
            ErrorKind::ApiLockTimeout => ERC_API_LOCK_TIMEOUT,
            ErrorKind::AlreadyOpened => ERC_ALREADY_OPENED,
            ErrorKind::NotSupported => ERC_NOT_SUPPORTED,
            ErrorKind::InvalidParameter0 => ERC_INVALID_PARAMETER_0,
            ErrorKind::InvalidParameter1 => ERC_INVALID_PARAMETER_1,
            ErrorKind::InvalidParameter2 => ERC_INVALID_PARAMETER_2,
            ErrorKind::InvalidParameter3 => ERC_INVALID_PARAMETER_3,
            ErrorKind::InvalidParameter4 => ERC_INVALID_PARAMETER_4,
        }
    }

    /// Classify a native error code; unrecognized codes become `Unknown`.
    pub fn from_code(code: i32) -> (k: ErrorKind)
        ensures
            k == spec_kind_of_code(code),
    {
        if code == ERC_NO_ERROR {
            ErrorKind::NoError
        } else if code == ERC_API_LOCK_TIMEOUT {
            ErrorKind::ApiLockTimeout
        } else if code == ERC_ALREADY_OPENED {
            ErrorKind::AlreadyOpened
        } else if code == ERC_NOT_SUPPORTED {
            ErrorKind::NotSupported
        } else if code == ERC_INVALID_PARAMETER_0 {
            ErrorKind::InvalidParameter0
        } else if code == ERC_INVALID_PARAMETER_1 {
            ErrorKind::InvalidParameter1
        } else if code == ERC_INVALID_PARAMETER_2 {
            ErrorKind::InvalidParameter2
        } else if code == ERC_INVALID_PARAMETER_3 {
            ErrorKind::InvalidParameter3
        } else if code == ERC_INVALID_PARAMETER_4 {
            ErrorKind::InvalidParameter4
        } else {
            ErrorKind::Unknown
        }
    }

    /// The fixed description of this classification.
    pub fn describe(&self) -> (s: String)
        ensures
            s@ == spec_kind_text(*self),
    {
        match self {
            ErrorKind::NoError => String::from_str("No error"),
            ErrorKind::Unknown => String::from_str("Unknown error"),
            ErrorKind::ApiLockTimeout => String::from_str("API lock timeout"),
            ErrorKind::AlreadyOpened => String::from_str("Device is already in use"),
            ErrorKind::NotSupported => String::from_str("Operation is not supported"),
            ErrorKind::InvalidParameter0 => String::from_str("Parameter #0 is invalid"),
            ErrorKind::InvalidParameter1 => String::from_str("Parameter #1 is invalid"),
            ErrorKind::InvalidParameter2 => String::from_str("Parameter #2 is invalid"),
            ErrorKind::InvalidParameter3 => String::from_str("Parameter #3 is invalid"),
            ErrorKind::InvalidParameter4 => String::from_str("Parameter #4 is invalid"),
        }
    }
}

/// The round trip of the code space: every classification maps to its code
/// and classifies back to itself, and the ten documented codes classify to
/// ten distinct classifications.
pub proof fn lemma_kind_code_round_trip()
    ensures
        forall|k: ErrorKind| #[trigger] spec_kind_of_code(spec_code_of_kind(k)) == k,
        forall|c1: i32, c2: i32|
            spec_kind_of_code(c1) != ErrorKind::Unknown && #[trigger] spec_kind_of_code(c1)
                == #[trigger] spec_kind_of_code(c2) ==> c1 == c2,
{
}

/// The failure value of every fallible operation: the classification of the
/// driver's last-error code, paired with the driver's last-error message.
#[derive(Debug)]
pub struct Error {
    pub kind: ErrorKind,
    pub message: String,
}

/// The display form of an error: the classification's description, then
/// `": "` and the message whenever the message is non-empty.
pub open spec fn spec_error_text(kind: ErrorKind, message: Seq<char>) -> Seq<char> {
    if message.len() > 0 {
        spec_kind_text(kind) + ": "@ + message
    } else {
        spec_kind_text(kind)
    }
}

impl Error {
    /// The classification of this failure.
    pub fn kind(&self) -> (k: ErrorKind)
        ensures
            k == self.kind,
    {
        self.kind
    }

    /// The message the driver reported at failure time.
    pub fn message(&self) -> (m: &str)
        ensures
            m@ == self.message@,
    {
        self.message.as_str()
    }

    /// The display form of this error.
    pub fn describe(&self) -> (s: String)
        ensures
            s@ == spec_error_text(self.kind, self.message@),
    {
        let mut s = self.kind.describe();
        if !self.message.as_str().is_empty() {
            s.append(": ");
            s.append(self.message.as_str());
        }
        s
    }
}

/// Whether `e` is exactly the failure the driver's script reports: the
/// classification of the scripted code, with the scripted message.
pub open spec fn reports_script_failure(e: Error, pre: crate::driver::Driver) -> bool {
    e.kind == spec_kind_of_code(pre.fail_code) && e.message@ == pre.fail_message@
}

/// Package the driver's last-error state, queried immediately at the
/// failure boundary, into a typed error.
pub fn get_last_error(drv: &crate::driver::Driver) -> (e: Error)
    ensures
        e.kind == spec_kind_of_code(drv.last_error_code),
        e.message@ == drv.last_error_message@,
{
    Error { kind: ErrorKind::from_code(drv.last_error_code), message: drv.last_error_message.clone() }
}

/// The uniform conversion of the native boolean-success idiom: success
/// passes through, failure is classified from the driver's last-error
/// state.
pub fn handle_dwf_errors(drv: &crate::driver::Driver, res: bool) -> (r: Result<(), Error>)
    ensures
        r is Ok <==> res,
        r matches Err(e) ==> e.kind == spec_kind_of_code(drv.last_error_code) && e.message@
            == drv.last_error_message@,
{
    if res {
        Ok(())
    } else {
        Err(get_last_error(drv))
    }
}

} // verus!
