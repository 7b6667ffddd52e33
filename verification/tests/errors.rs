//! The error taxonomy: codes, reason phrases, construction helpers, the
//! value representation, and the wrapping of outside failures.

use ardite::error::{Code, Error};
use ardite::value::Value;

fn s(text: &str) -> String {
    text.to_string()
}

#[test]
fn test_code_to_u16() {
    assert_eq!(Code::BadRequest.to_u16(), 400);
    assert_eq!(Code::Forbidden.to_u16(), 403);
    assert_eq!(Code::NotFound.to_u16(), 404);
    assert_eq!(Code::MethodNotAllowed.to_u16(), 405);
    assert_eq!(Code::NotAcceptable.to_u16(), 406);
    assert_eq!(Code::Conflict.to_u16(), 409);
    assert_eq!(Code::BadRange.to_u16(), 416);
    assert_eq!(Code::Internal.to_u16(), 500);
    assert_eq!(Code::NotImplemented.to_u16(), 501);
}

#[test]
fn test_code_reason() {
    assert_eq!(Code::BadRequest.reason(), "Bad Request");
    assert_eq!(Code::Forbidden.reason(), "Forbidden");
    assert_eq!(Code::NotFound.reason(), "Not Found");
    assert_eq!(Code::MethodNotAllowed.reason(), "Method Not Allowed");
    assert_eq!(Code::NotAcceptable.reason(), "Not Acceptable");
    assert_eq!(Code::Conflict.reason(), "Conflict");
    assert_eq!(Code::BadRange.reason(), "Range Not Satisfiable");
    assert_eq!(Code::Internal.reason(), "Internal Error");
    assert_eq!(Code::NotImplemented.reason(), "Not Implemented");
}

#[test]
fn test_error_new_and_accessors() {
    let error = Error::new(Code::Conflict, s("Present data made this fail."));
    assert_eq!(error.code(), &Code::Conflict);
    assert_eq!(error.message(), "Present data made this fail.");
    assert_eq!(error.hint(), None);
    let error = error.set_hint(s("Try something else."));
    assert_eq!(error.hint(), Some("Try something else."));
}

#[test]
fn test_error_constructors() {
    let invalid = Error::invalid(s("Failed validation."), s("Try fixing your syntax!"));
    assert_eq!(invalid.code(), &Code::BadRequest);
    assert_eq!(invalid.message(), "Failed validation.");
    assert_eq!(invalid.hint(), Some("Try fixing your syntax!"));

    let not_found = Error::not_found(s("Where's Waldo?"));
    assert_eq!(not_found.code(), &Code::NotFound);
    assert_eq!(not_found.hint(), None);

    let internal = Error::internal(s("Something blew up."));
    assert_eq!(internal.code(), &Code::Internal);

    let unimplemented = Error::unimplemented(s("Cache invalidation is hard."));
    assert_eq!(unimplemented.code(), &Code::NotImplemented);
}

#[test]
fn test_error_to_value() {
    let error = Error::new(Code::NotFound, s("Not found...")).set_hint(s("Go to the light!"));
    let value = Value::Object(vec![
        (s("error"), Value::Boolean(true)),
        (s("code"), Value::I64(404)),
        (s("message"), Value::String(s("Not found..."))),
        (s("hint"), Value::String(s("Go to the light!"))),
    ]);
    assert_eq!(error.to_value(), value);
}

#[test]
fn test_error_to_value_without_hint() {
    let error = Error::internal(s("Something blew up."));
    let value = Value::Object(vec![
        (s("error"), Value::Boolean(true)),
        (s("code"), Value::I64(500)),
        (s("message"), Value::String(s("Something blew up."))),
    ]);
    assert_eq!(error.to_value(), value);
}

#[test]
fn test_json_syntax_error_becomes_bad_request() {
    let failure = serde_json::from_str::<serde_json::Value>("{ bad json").unwrap_err();
    assert!(failure.is_syntax());
    let error = Error::from(failure);
    assert_eq!(error.code(), &Code::BadRequest);
    let hint = error.hint().expect("a syntax failure carries a hint");
    assert!(hint.contains("JSON syntax"));
    assert!(hint.contains("line 1"));
}

#[test]
fn test_json_data_error_becomes_internal() {
    let failure = serde_json::from_str::<u32>("\"text\"").unwrap_err();
    assert!(!failure.is_syntax());
    let error = Error::from(failure);
    assert_eq!(error.code(), &Code::Internal);
    assert_eq!(error.hint(), None);
}

#[test]
fn test_yaml_error_with_location_becomes_bad_request() {
    let failure = serde_yaml::from_str::<serde_yaml::Value>("{ bad: yaml").unwrap_err();
    assert!(failure.location().is_some());
    let error = Error::from(failure);
    assert_eq!(error.code(), &Code::BadRequest);
    assert_eq!(error.hint(), Some("Make sure your YAML syntax is correct."));
}
