//! Response handling: parse one response body as JSON, look up the nested
//! result code, and classify it.

use vstd::prelude::*;
use vstd::string::StringExecFns;
use crate::classify::Availability;
use crate::classify::CheckError;
use crate::classify::CodeClass;
use crate::classify::classify_code;
use crate::classify::code_class_spec;
use crate::numerals::parse_i32_spec;
use crate::numerals::parse_i32_text;

verus! {

/// Whether `serde_json::from_str` accepts `body` as a JSON document.
pub uninterp spec fn json_ok(body: Seq<char>) -> bool;

/// What looking up `path` (a JSON pointer) in the parsed `body` yields:
/// nothing when some step of the path is absent or the value there is
/// null; otherwise the value's text when it is a JSON string, or no text
/// when it is some other kind of value.
pub uninterp spec fn code_field(path: Seq<char>, body: Seq<char>) -> Option<Option<Seq<char>>>;

/// The nested field the registry answers with.
pub open spec fn result_code_path() -> Seq<char> {
    "/response/result/result_code"@
}

/// The result-code field as read from one response body.
enum RawCode {
    NotJson,
    MissingOrNull,
    NotText,
    Text(String),
}

/// Relies on `serde_json::from_str` to parse the body, and on
/// `serde_json::Value::pointer` and `serde_json::Value::as_str` to follow
/// the pointer `path` and read the value there as a string. Each result is
/// a function of the two arguments alone; `json_ok` and `code_field` name
/// the two outcomes.
#[verifier::external_body]
fn extract_at_path(body: &str, path: &str) -> (r: RawCode)
    ensures
        (r is NotJson) == !json_ok(body@),
        json_ok(body@) ==> (match r {
            RawCode::NotJson => false,
            RawCode::MissingOrNull => code_field(path@, body@) is None,
            RawCode::NotText => code_field(path@, body@) == Some(Option::<Seq<char>>::None),
            RawCode::Text(t) => code_field(path@, body@) == Some(Some(t@)),
        }),
{
    let parsed: serde_json::Value = match serde_json::from_str(body) {
        Ok(v) => v,
        Err(_) => {
            return RawCode::NotJson;
        },
    };
    match parsed.pointer(path) {
        None => RawCode::MissingOrNull,
        Some(serde_json::Value::Null) => RawCode::MissingOrNull,
        Some(v) => match v.as_str() {
            Some(t) => RawCode::Text(t.to_string()),
            None => RawCode::NotText,
        },
    }
}

/// The text the code is coerced from: a non-string value stands in as
/// `"000"`.
pub open spec fn effective_code_text(f: Option<Seq<char>>) -> Seq<char> {
    match f {
        Option::None => "000"@,
        Option::Some(t) => t,
    }
}

/// A spec-level picture of a check outcome, strings as character
/// sequences.
pub enum OutcomeSpec {
    Available,
    Unavailable,
    NotJson(Seq<char>),
    Missing(Seq<char>),
    NullCode,
    BadApiKey,
    NonNumeric(Seq<char>),
    Unknown(int, Seq<char>),
}

/// What classifying `body` must yield, step by step: parse as JSON, look
/// up the nested code, coerce its text to an integer, classify the
/// integer. The body is echoed wherever the data, not the code table, is
/// at fault.
pub open spec fn body_outcome(body: Seq<char>) -> OutcomeSpec {
    if !json_ok(body) {
        OutcomeSpec::NotJson(body)
    } else {
        match code_field(result_code_path(), body) {
            Option::None => OutcomeSpec::Missing(body),
            Option::Some(f) => {
                let t = effective_code_text(f);
                match parse_i32_spec(t) {
                    Option::None => OutcomeSpec::NonNumeric(t),
                    Option::Some(c) => match code_class_spec(c as int) {
                        CodeClass::Available => OutcomeSpec::Available,
                        CodeClass::Unavailable => OutcomeSpec::Unavailable,
                        CodeClass::NullCode => OutcomeSpec::NullCode,
                        CodeClass::BadApiKey => OutcomeSpec::BadApiKey,
                        CodeClass::Unknown(u) => OutcomeSpec::Unknown(u as int, body),
                    },
                }
            },
        }
    }
}

/// The spec-level picture of an executable check result.
pub open spec fn outcome_view(r: Result<Availability, CheckError>) -> OutcomeSpec {
    match r {
        Result::Ok(Availability::Available) => OutcomeSpec::Available,
        Result::Ok(Availability::Unavailable) => OutcomeSpec::Unavailable,
        Result::Err(CheckError::BodyNotJson { raw }) => OutcomeSpec::NotJson(raw@),
        Result::Err(CheckError::MissingResultCode { raw }) => OutcomeSpec::Missing(raw@),
        Result::Err(CheckError::NullResultCode) => OutcomeSpec::NullCode,
        Result::Err(CheckError::InvalidApiKey) => OutcomeSpec::BadApiKey,
        Result::Err(CheckError::NonNumericCode { text }) => OutcomeSpec::NonNumeric(text@),
        Result::Err(CheckError::UnknownCode { code, raw }) => OutcomeSpec::Unknown(
            code as int,
            raw@,
        ),
    }
}

/// Classifies one response body into the tri-state check result.
pub fn classify_body(body: &str) -> (r: Result<Availability, CheckError>)
    ensures
        outcome_view(r) == body_outcome(body@),
{
    let code_text: String = match extract_at_path(body, "/response/result/result_code") {
        RawCode::NotJson => {
            return Err(CheckError::BodyNotJson { raw: String::from_str(body) });
        },
        RawCode::MissingOrNull => {
            return Err(CheckError::MissingResultCode { raw: String::from_str(body) });
        },
        RawCode::NotText => String::from_str("000"),
        RawCode::Text(t) => t,
    };
    let code: i32 = match parse_i32_text(code_text.as_str()) {
        Option::None => {
            return Err(CheckError::NonNumericCode { text: code_text });
        },
        Option::Some(c) => c,
    };
    match classify_code(code) {
        CodeClass::Available => Ok(Availability::Available),
        CodeClass::Unavailable => Ok(Availability::Unavailable),
        CodeClass::NullCode => Err(CheckError::NullResultCode),
        CodeClass::BadApiKey => Err(CheckError::InvalidApiKey),
        CodeClass::Unknown(u) => Err(
            CheckError::UnknownCode { code: u, raw: String::from_str(body) },
        ),
    }
}

} // verus!
