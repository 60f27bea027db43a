use vstd::prelude::*;
use vstd::string::StringExecFns;

verus! {

/// The error layer of the binding: the native API reports failure through
/// small negative return codes, and string conversion at the boundary can
/// fail on its own.  `BadString` carries a human-readable account of such
/// a conversion failure.
#[derive(Debug)]
pub enum Error {
    InvalidArg,
    Runtime,
    NotAvailable,
    TooSmall,
    Unkown,
    BadString(String),
}

/// Which error kind a negative native return code stands for.
pub open spec fn spec_error_of_code(code: int) -> Error {
    if code == -1 {
        Error::InvalidArg
    } else if code == -2 {
        Error::Runtime
    } else if code == -3 {
        Error::NotAvailable
    } else if code == -4 {
        Error::TooSmall
    } else {
        Error::Unkown
    }
}

impl From<i32> for Error {
    fn from(code: i32) -> (r: Self)
        ensures
            r == spec_error_of_code(code as int),
    {
        match code {
            -1 => Self::InvalidArg,
            -2 => Self::Runtime,
            -3 => Self::NotAvailable,
            -4 => Self::TooSmall,
            _ => Self::Unkown,
        }
    }
}

impl vstd::std_specs::convert::FromSpecImpl<i32> for Error {
    open spec fn obeys_from_spec() -> bool {
        true
    }

    open spec fn from_spec(code: i32) -> Self {
        spec_error_of_code(code as int)
    }
}

/// The text that an error kind renders as.
pub open spec fn spec_message(e: Error) -> Seq<char> {
    match e {
        Error::InvalidArg => "InvalidArg"@,
        Error::Runtime => "RuntimeError"@,
        Error::NotAvailable => "NotAvailable"@,
        Error::TooSmall => "TooSmall"@,
        Error::Unkown => "UnknownError"@,
        Error::BadString(msg) => "BadString: "@ + msg@,
    }
}

impl Error {
    /// A human-readable rendering of the error.
    pub fn message(&self) -> (r: String)
        ensures
            r@ == spec_message(*self),
    {
        match self {
            Self::InvalidArg => String::from_str("InvalidArg"),
            Self::Runtime => String::from_str("RuntimeError"),
            Self::NotAvailable => String::from_str("NotAvailable"),
            Self::TooSmall => String::from_str("TooSmall"),
            Self::Unkown => String::from_str("UnknownError"),
            Self::BadString(msg) => String::from_str("BadString: ").concat(msg.as_str()),
        }
    }
}

/// Turns a native return code into a result: non-negative codes are
/// successes and carry their own value, negative codes map to the error
/// kind they stand for.
pub fn check(code: i32) -> (r: Result<i32, Error>)
    ensures
        code >= 0 ==> r == Result::<i32, Error>::Ok(code),
        code < 0 ==> r == Result::<i32, Error>::Err(spec_error_of_code(code as int)),
{
    if code < 0 {
        Err(Error::from(code))
    } else {
        Ok(code)
    }
}

} // verus!
