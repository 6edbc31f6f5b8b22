//! Classification of a registry result code, and the errors a single
//! availability check can end in.

use vstd::prelude::*;
use vstd::string::StringExecFns;
use crate::lines::dec_str_signed;
use crate::lines::dec_string_i32;

verus! {

/// The definite outcome of one availability lookup.
#[derive(Clone, Copy, Debug, PartialEq, Eq, Structural)]
pub enum Availability {
    /// The domain is not registered and may be claimed.
    Available,
    /// The domain is registered or its registration is restricted.
    Unavailable,
}

/// What one integer result code means, before any response context is
/// attached.
#[derive(Clone, Copy, Debug, PartialEq, Eq, Structural)]
pub enum CodeClass {
    /// Code 100: the domain is not registered.
    Available,
    /// Codes 113 and 10000: restricted by policy, or already registered.
    Unavailable,
    /// Code 0: the code was present yet semantically null.
    NullCode,
    /// Code 22: the registry rejected the API key.
    BadApiKey,
    /// Any other code, carried for diagnostics.
    Unknown(i32),
}

/// The classification table: code 100 means available; 113 and 10000 mean
/// unavailable; 0 and 22 are distinguished failures; anything else is an
/// unknown code.
pub open spec fn code_class_spec(code: int) -> CodeClass {
    if code == 100 {
        CodeClass::Available
    } else if code == 113 || code == 10000 {
        CodeClass::Unavailable
    } else if code == 0 {
        CodeClass::NullCode
    } else if code == 22 {
        CodeClass::BadApiKey
    } else {
        CodeClass::Unknown(code as i32)
    }
}

/// Classifies one integer result code; a pure function of the code alone.
pub fn classify_code(code: i32) -> (r: CodeClass)
    ensures
        r == code_class_spec(code as int),
{
    if code == 100 {
        CodeClass::Available
    } else if code == 113 || code == 10000 {
        CodeClass::Unavailable
    } else if code == 0 {
        CodeClass::NullCode
    } else if code == 22 {
        CodeClass::BadApiKey
    } else {
        CodeClass::Unknown(code)
    }
}

/// Why one availability check failed.
#[derive(Debug, Clone, PartialEq, Eq)]
pub enum CheckError {
    /// The response body was not JSON; `raw` echoes the body.
    BodyNotJson { raw: String },
    /// `response.result.result_code` was absent or null somewhere along
    /// the path; `raw` echoes the body.
    MissingResultCode { raw: String },
    /// The code was 0: present yet semantically null.
    NullResultCode,
    /// The code was 22: the registry rejected the API key.
    InvalidApiKey,
    /// The code's text was not a decimal number; `text` holds that text.
    NonNumericCode { text: String },
    /// A code outside the classification table; `raw` echoes the body.
    UnknownCode { code: i32, raw: String },
}

impl CheckError {
    /// The diagnostic text for this failure.
    pub open spec fn message_spec(self) -> Seq<char> {
        match self {
            CheckError::BodyNotJson { .. } => "Could not parse data."@,
            CheckError::MissingResultCode { .. } => "Wrong Data"@,
            CheckError::NullResultCode => "result_code was null"@,
            CheckError::InvalidApiKey => "The api key seems to be wrong"@,
            CheckError::NonNumericCode { text } => "result_code is not a number: "@ + text@,
            CheckError::UnknownCode { code, .. } => "dunno about this type of result code: "@
                + dec_str_signed(code as int),
        }
    }

    /// Renders the diagnostic text for this failure.
    pub fn message(&self) -> (r: String)
        ensures
            r@ == self.message_spec(),
    {
        match self {
            CheckError::BodyNotJson { .. } => String::from_str("Could not parse data."),
            CheckError::MissingResultCode { .. } => String::from_str("Wrong Data"),
            CheckError::NullResultCode => String::from_str("result_code was null"),
            CheckError::InvalidApiKey => String::from_str("The api key seems to be wrong"),
            CheckError::NonNumericCode { text } => {
                let mut s = String::from_str("result_code is not a number: ");
                s.append(text.as_str());
                s
            },
            CheckError::UnknownCode { code, .. } => {
                let mut s = String::from_str("dunno about this type of result code: ");
                let tail = dec_string_i32(*code);
                s.append(tail.as_str());
                s
            },
        }
    }
}

} // verus!
