//! Errors a contract reports to the host as a failed result.
use vstd::prelude::*;
use vstd::string::*;

verus! {

/// A business-level or protocol error, turned into the message of a failed result.
#[derive(Clone, Copy, Debug)]
pub enum Error {
    ContractErr { msg: &'static str },
    NotFound { msg: &'static str },
    ParseErr { msg: &'static str },
    SerializeErr { msg: &'static str },
    ValidationErr { field: &'static str, msg: &'static str },
    NullPointer {},
}

pub open spec fn error_text(e: Error) -> Seq<char> {
    match e {
        Error::ContractErr { msg } => "Contract error: "@ + msg@,
        Error::NotFound { msg } => msg@ + " not found"@,
        Error::ParseErr { msg } => "Error parsing "@ + msg@,
        Error::SerializeErr { msg } => "Error serializing "@ + msg@,
        Error::ValidationErr { field, msg } => "Invalid "@ + field@ + ": "@ + msg@,
        Error::NullPointer {  } => "Received null pointer, refuse to use"@,
    }
}

impl Error {
    /// The message of the failed result.
    pub fn to_string(&self) -> (r: String)
        ensures
            r@ == error_text(*self),
    {
        match self {
            Error::ContractErr { msg } => {
                let mut s = String::from_str("Contract error: ");
                s.append(msg);
                s
            },
            Error::NotFound { msg } => {
                let mut s = String::from_str(msg);
                s.append(" not found");
                s
            },
            Error::ParseErr { msg } => {
                let mut s = String::from_str("Error parsing ");
                s.append(msg);
                s
            },
            Error::SerializeErr { msg } => {
                let mut s = String::from_str("Error serializing ");
                s.append(msg);
                s
            },
            Error::ValidationErr { field, msg } => {
                let mut s = String::from_str("Invalid ");
                s.append(field);
                s.append(": ");
                s.append(msg);
                s
            },
            Error::NullPointer {  } => String::from_str("Received null pointer, refuse to use"),
        }
    }
}

} // verus!
