use krtld::classify::classify_code;
use krtld::classify::CheckError;
use krtld::classify::CodeClass;

#[test]
fn code_100_is_available() {
    assert_eq!(classify_code(100), CodeClass::Available);
}

#[test]
fn codes_113_and_10000_are_unavailable() {
    assert_eq!(classify_code(113), CodeClass::Unavailable);
    assert_eq!(classify_code(10000), CodeClass::Unavailable);
}

#[test]
fn code_0_is_the_null_code_failure() {
    assert_eq!(classify_code(0), CodeClass::NullCode);
}

#[test]
fn code_22_is_the_bad_key_failure() {
    assert_eq!(classify_code(22), CodeClass::BadApiKey);
}

#[test]
fn other_codes_are_unknown_and_cite_the_code() {
    assert_eq!(classify_code(7), CodeClass::Unknown(7));
    assert_eq!(classify_code(101), CodeClass::Unknown(101));
    assert_eq!(classify_code(9999), CodeClass::Unknown(9999));
    assert_eq!(classify_code(-3), CodeClass::Unknown(-3));
    assert_eq!(classify_code(i32::MAX), CodeClass::Unknown(i32::MAX));
    assert_eq!(classify_code(i32::MIN), CodeClass::Unknown(i32::MIN));
}

#[test]
fn failure_messages_are_specific() {
    let null_code = CheckError::NullResultCode;
    assert_eq!(null_code.message(), "result_code was null");
    let bad_key = CheckError::InvalidApiKey;
    assert_eq!(bad_key.message(), "The api key seems to be wrong");
    let missing = CheckError::MissingResultCode { raw: String::from("{}") };
    assert_eq!(missing.message(), "Wrong Data");
    let not_json = CheckError::BodyNotJson { raw: String::from("oops") };
    assert_eq!(not_json.message(), "Could not parse data.");
    let unknown = CheckError::UnknownCode { code: 77, raw: String::from("{}") };
    assert_eq!(unknown.message(), "dunno about this type of result code: 77");
    let negative = CheckError::UnknownCode { code: -5, raw: String::from("{}") };
    assert_eq!(negative.message(), "dunno about this type of result code: -5");
}
