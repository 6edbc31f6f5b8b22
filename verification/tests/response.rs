use krtld::classify::Availability;
use krtld::classify::CheckError;
use krtld::response::classify_body;

fn body_with_code(code: &str) -> String {
    let mut s = String::from("{\"response\":{\"result\":{\"result_code\":\"");
    s.push_str(code);
    s.push_str("\"}}}");
    s
}

#[test]
fn code_100_body_is_available() {
    let body = body_with_code("100");
    assert_eq!(classify_body(&body), Ok(Availability::Available));
}

#[test]
fn codes_113_and_10000_bodies_are_unavailable() {
    assert_eq!(classify_body(&body_with_code("113")), Ok(Availability::Unavailable));
    assert_eq!(classify_body(&body_with_code("10000")), Ok(Availability::Unavailable));
}

#[test]
fn code_0_body_is_the_null_code_failure() {
    assert_eq!(classify_body(&body_with_code("0")), Err(CheckError::NullResultCode));
}

#[test]
fn code_22_body_is_the_bad_key_failure() {
    assert_eq!(classify_body(&body_with_code("22")), Err(CheckError::InvalidApiKey));
}

#[test]
fn unknown_code_body_cites_the_code_and_echoes_the_body() {
    let body = body_with_code("777");
    assert_eq!(
        classify_body(&body),
        Err(CheckError::UnknownCode { code: 777, raw: body.clone() })
    );
}

#[test]
fn missing_field_echoes_body_and_differs_from_unknown_code() {
    let body = String::from("{\"response\":{\"result\":{}}}");
    let r = classify_body(&body);
    assert_eq!(r, Err(CheckError::MissingResultCode { raw: body.clone() }));
    assert_ne!(r, Err(CheckError::UnknownCode { code: 0, raw: body.clone() }));
}

#[test]
fn missing_outer_levels_also_give_the_missing_failure() {
    let body = String::from("{}");
    assert_eq!(
        classify_body(&body),
        Err(CheckError::MissingResultCode { raw: body.clone() })
    );
    let body2 = String::from("{\"response\":{}}");
    assert_eq!(
        classify_body(&body2),
        Err(CheckError::MissingResultCode { raw: body2.clone() })
    );
}

#[test]
fn null_code_field_gives_the_missing_failure() {
    let body = String::from("{\"response\":{\"result\":{\"result_code\":null}}}");
    assert_eq!(
        classify_body(&body),
        Err(CheckError::MissingResultCode { raw: body.clone() })
    );
}

#[test]
fn non_json_body_is_a_parse_failure_echoing_the_body() {
    let body = String::from("definitely not json");
    assert_eq!(classify_body(&body), Err(CheckError::BodyNotJson { raw: body.clone() }));
    let body2 = String::from("");
    assert_eq!(classify_body(&body2), Err(CheckError::BodyNotJson { raw: body2.clone() }));
}

#[test]
fn numeric_code_value_counts_as_null_code() {
    // A JSON number has no string form here, so the code falls back to 0.
    let body = String::from("{\"response\":{\"result\":{\"result_code\":100}}}");
    assert_eq!(classify_body(&body), Err(CheckError::NullResultCode));
}

#[test]
fn non_numeric_code_text_is_its_own_failure() {
    let body = body_with_code("abc");
    assert_eq!(
        classify_body(&body),
        Err(CheckError::NonNumericCode { text: String::from("abc") })
    );
}

#[test]
fn code_with_leading_zeros_still_classifies() {
    assert_eq!(classify_body(&body_with_code("000100")), Ok(Availability::Available));
}
