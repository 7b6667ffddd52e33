//! The error taxonomy: a closed set of codes with HTTP-status-like numbers,
//! a message, and an optional remediation hint.

use vstd::prelude::*;
use vstd::string::StringExecFns;

use crate::outside::{json_error_text, yaml_error_text};
use crate::text::{dec_str, decimal_string};
use crate::value::{Value, ValueModel, fields_model, lemma_fields_model_index};

verus! {

/// The code of an error. Designed to map to HTTP status codes, though only a
/// subset of those with a universal meaning across contexts is supported.
#[derive(Clone, Copy, Debug, PartialEq, Eq, Structural)]
pub enum Code {
    /// 400, a bad syntax was used.
    BadRequest,
    /// 403, permissions do not allow this to happen.
    Forbidden,
    /// 404, the resource was not found.
    NotFound,
    /// 405, the method used is not allowed.
    MethodNotAllowed,
    /// 406, the requested resource is not acceptable.
    NotAcceptable,
    /// 409, present data made the request fail.
    Conflict,
    /// 416, there was an invalid range.
    BadRange,
    /// 500, something bad happened inside a driver.
    Internal,
    /// 501, the feature has not been implemented.
    NotImplemented,
}

impl Code {
    /// The positive integer HTTP status code associated with this variant.
    pub fn to_u16(&self) -> (r: u16)
        ensures
            r == self.spec_to_u16(),
    {
        match *self {
            Code::BadRequest => 400,
            Code::Forbidden => 403,
            Code::NotFound => 404,
            Code::MethodNotAllowed => 405,
            Code::NotAcceptable => 406,
            Code::Conflict => 409,
            Code::BadRange => 416,
            Code::Internal => 500,
            Code::NotImplemented => 501,
        }
    }

    /// The status code number of this variant.
    pub open spec fn spec_to_u16(self) -> u16 {
        match self {
            Code::BadRequest => 400,
            Code::Forbidden => 403,
            Code::NotFound => 404,
            Code::MethodNotAllowed => 405,
            Code::NotAcceptable => 406,
            Code::Conflict => 409,
            Code::BadRange => 416,
            Code::Internal => 500,
            Code::NotImplemented => 501,
        }
    }

    /// The HTTP "reason phrase" for this code, with phrases that clearly
    /// refer to web servers slightly rephrased.
    pub fn reason(&self) -> (r: &'static str)
        ensures
            r@ == self.spec_reason(),
    {
        match *self {
            Code::BadRequest => "Bad Request",
            Code::Forbidden => "Forbidden",
            Code::NotFound => "Not Found",
            Code::MethodNotAllowed => "Method Not Allowed",
            Code::NotAcceptable => "Not Acceptable",
            Code::Conflict => "Conflict",
            Code::BadRange => "Range Not Satisfiable",
            Code::Internal => "Internal Error",
            Code::NotImplemented => "Not Implemented",
        }
    }

    /// The reason phrase of this variant.
    pub open spec fn spec_reason(self) -> Seq<char> {
        match self {
            Code::BadRequest => "Bad Request"@,
            Code::Forbidden => "Forbidden"@,
            Code::NotFound => "Not Found"@,
            Code::MethodNotAllowed => "Method Not Allowed"@,
            Code::NotAcceptable => "Not Acceptable"@,
            Code::Conflict => "Conflict"@,
            Code::BadRange => "Range Not Satisfiable"@,
            Code::Internal => "Internal Error"@,
            Code::NotImplemented => "Not Implemented"@,
        }
    }
}

/// The mathematical content of an [`Error`]: its code, the characters of its
/// message, and the characters of its hint when one is present.
pub ghost struct ErrorModel {
    pub code: Code,
    pub message: Seq<char>,
    pub hint: Option<Seq<char>>,
}

/// Any error generated by this layer or its drivers. Carries a [`Code`]
/// (which maps to an HTTP status code), a message, and an optional hint
/// telling the user how to avoid the error.
#[derive(Debug)]
pub struct Error {
    /// A specific error code which describes the error.
    code: Code,
    /// A message providing more detail beyond the error code.
    message: String,
    /// A hint to the user on what to do next to try and avoid the error
    /// happening again.
    hint: Option<String>,
}

impl View for Error {
    type V = ErrorModel;

    closed spec fn view(&self) -> ErrorModel {
        ErrorModel {
            code: self.code,
            message: self.message@,
            hint: match self.hint {
                Some(h) => Some(h@),
                None => None,
            },
        }
    }
}

impl Error {
    /// Create a new error from a code and a message, with no hint.
    pub fn new(code: Code, message: String) -> (r: Self)
        ensures
            r@ == (ErrorModel { code, message: message@, hint: None }),
    {
        Error { code, message, hint: None }
    }

    /// Sets the error hint in a chainable fashion.
    pub fn set_hint(self, hint: String) -> (r: Self)
        ensures
            r@ == (ErrorModel { hint: Some(hint@), ..self@ }),
    {
        Error { hint: Some(hint), ..self }
    }

    /// Get the code for the error.
    pub fn code(&self) -> (r: &Code)
        ensures
            r == self@.code,
    {
        &self.code
    }

    /// Get the message for the error.
    pub fn message(&self) -> (r: &str)
        ensures
            r@ == self@.message,
    {
        self.message.as_str()
    }

    /// Take the hint for the error.
    pub fn hint(&self) -> (r: Option<&str>)
        ensures
            match r {
                Some(h) => self@.hint == Some(h@),
                None => self@.hint is None,
            },
    {
        match &self.hint {
            Some(h) => Some(h.as_str()),
            None => None,
        }
    }

    /// Convenience function for saying a thing failed validation, using
    /// [`Code::BadRequest`].
    pub fn invalid(message: String, hint: String) -> (r: Self)
        ensures
            r@ == (ErrorModel {
                code: Code::BadRequest,
                message: message@,
                hint: Some(hint@),
            }),
    {
        Error { code: Code::BadRequest, message, hint: Some(hint) }
    }

    /// Convenience function for saying the requested resource was not found,
    /// using [`Code::NotFound`].
    pub fn not_found(message: String) -> (r: Self)
        ensures
            r@ == (ErrorModel { code: Code::NotFound, message: message@, hint: None }),
    {
        Error { code: Code::NotFound, message, hint: None }
    }

    /// Convenience function for saying there was an internal error, using
    /// [`Code::Internal`].
    pub fn internal(message: String) -> (r: Self)
        ensures
            r@ == (ErrorModel { code: Code::Internal, message: message@, hint: None }),
    {
        Error { code: Code::Internal, message, hint: None }
    }

    /// Convenience function for an error with a plain message describing what
    /// is unimplemented, using [`Code::NotImplemented`].
    pub fn unimplemented(message: String) -> (r: Self)
        ensures
            r@ == (ErrorModel { code: Code::NotImplemented, message: message@, hint: None }),
    {
        Error { code: Code::NotImplemented, message, hint: None }
    }

    /// An object which represents the error: its marker, its integer code,
    /// its message, and its hint when one is present. This is the shape an
    /// HTTP-facing layer serializes directly to a response body.
    pub fn to_value(&self) -> (r: Value)
        ensures
            r@ == error_value_model(self@),
    {
        let mut object: Vec<(String, Value)> = Vec::new();
        object.push(("error".to_owned(), Value::Boolean(true)));
        object.push(("code".to_owned(), Value::I64(self.code.to_u16() as i64)));
        object.push(("message".to_owned(), Value::String(self.message.clone())));
        match &self.hint {
            Some(hint) => {
                object.push(("hint".to_owned(), Value::String(hint.clone())));
            },
            None => {},
        }
        let r = Value::Object(object);
        proof {
            lemma_fields_model_index(r->Object_0@);
            assert(r@->Object_0 =~= error_value_model(self@)->Object_0);
        }
        r
    }
}

/// The object representing an error: `error` set to true, the integer
/// `code`, the `message`, and the `hint` when one is present.
pub open spec fn error_value_model(e: ErrorModel) -> ValueModel {
    ValueModel::Object(
        seq![
            ("error"@, ValueModel::Boolean(true)),
            ("code"@, ValueModel::I64(e.code.spec_to_u16() as i64)),
            ("message"@, ValueModel::String(e.message)),
        ] + (match e.hint {
            Some(h) => seq![("hint"@, ValueModel::String(h))],
            None => Seq::empty(),
        }),
    )
}

/// The error wrapping a JSON failure: a syntax failure is the caller's bad
/// request, with a hint naming the line and column; anything else is
/// internal.
pub open spec fn json_error_model(
    is_syntax: bool,
    line: int,
    column: int,
    text: Seq<char>,
) -> ErrorModel {
    if is_syntax {
        ErrorModel {
            code: Code::BadRequest,
            message: text,
            hint: Some(
                "Make sure your JSON syntax is correct around line "@ + dec_str(line) + " column "@
                    + dec_str(column) + "."@,
            ),
        }
    } else {
        ErrorModel { code: Code::Internal, message: text, hint: None }
    }
}

/// The error wrapping a YAML failure: a failure with an input position is
/// the caller's bad request, with a hint to check the syntax; anything else
/// is internal.
pub open spec fn yaml_error_model(has_location: bool, text: Seq<char>) -> ErrorModel {
    if has_location {
        ErrorModel {
            code: Code::BadRequest,
            message: text,
            hint: Some("Make sure your YAML syntax is correct."@),
        }
    } else {
        ErrorModel { code: Code::Internal, message: text, hint: None }
    }
}

/// Builds the error for a JSON failure from its classification, its input
/// position and its text.
pub fn json_failure(is_syntax: bool, line: usize, column: usize, text: String) -> (r: Error)
    ensures
        r@ == json_error_model(is_syntax, line as int, column as int, text@),
{
    if is_syntax {
        let mut hint = "Make sure your JSON syntax is correct around line ".to_owned();
        hint.append(decimal_string(line as u64).as_str());
        hint.append(" column ");
        hint.append(decimal_string(column as u64).as_str());
        hint.append(".");
        Error::invalid(text, hint)
    } else {
        Error::internal(text)
    }
}

/// Builds the error for a YAML failure from whether it carries an input
/// position and from its text.
pub fn yaml_failure(has_location: bool, text: String) -> (r: Error)
    ensures
        r@ == yaml_error_model(has_location, text@),
{
    if has_location {
        Error::invalid(text, "Make sure your YAML syntax is correct.".to_owned())
    } else {
        Error::internal(text)
    }
}

impl From<serde_json::Error> for Error {
    /// Wraps a JSON failure: a syntax failure becomes the caller's bad
    /// request with a hint naming the line and column; anything else is
    /// internal.
    fn from(error: serde_json::Error) -> (r: Self)
        ensures
            r@.code == Code::BadRequest || r@.code == Code::Internal,
            (r@.code == Code::BadRequest) <==> (r@.hint is Some),
    {
        let is_syntax = error.is_syntax();
        let line = error.line();
        let column = error.column();
        let text = json_error_text(&error);
        json_failure(is_syntax, line, column, text)
    }
}

impl vstd::std_specs::convert::FromSpecImpl<serde_json::Error> for Error {
    open spec fn obeys_from_spec() -> bool {
        false
    }

    open spec fn from_spec(v: serde_json::Error) -> Error {
        arbitrary()
    }
}

impl From<serde_yaml::Error> for Error {
    /// Wraps a YAML failure: a failure with an input position becomes the
    /// caller's bad request with a hint to check the syntax; anything else
    /// is internal.
    fn from(error: serde_yaml::Error) -> (r: Self)
        ensures
            r@.code == Code::BadRequest || r@.code == Code::Internal,
            (r@.code == Code::BadRequest) <==> (r@.hint is Some),
    {
        let has_location = match error.location() {
            Some(_) => true,
            None => false,
        };
        let text = yaml_error_text(&error);
        yaml_failure(has_location, text)
    }
}

impl vstd::std_specs::convert::FromSpecImpl<serde_yaml::Error> for Error {
    open spec fn obeys_from_spec() -> bool {
        false
    }

    open spec fn from_spec(v: serde_yaml::Error) -> Error {
        arbitrary()
    }
}

} // verus!
