//! Trusted declarations for the outside crates: the serialization crates'
//! failure types with the methods the error taxonomy reads from them, and
//! URL parsing for connection strings. Every contract here is believed, not
//! proved; each says no more than the crate's own documentation.

use vstd::prelude::*;

use serde_json::Error as JsonError;
use serde_yaml::Error as YamlError;
use serde_yaml::Location as YamlLocation;

verus! {

#[verifier::external_type_specification]
#[verifier::external_body]
pub struct ExJsonError(JsonError);

#[verifier::external_type_specification]
#[verifier::external_body]
pub struct ExYamlError(YamlError);

#[verifier::external_type_specification]
#[verifier::external_body]
pub struct ExYamlLocation(YamlLocation);

/// Relies on serde_json's `Error::is_syntax`: whether the failure was caused by
/// input that was not syntactically valid JSON.
pub assume_specification[ JsonError::is_syntax ](error: &JsonError) -> bool;

/// Relies on serde_json's `Error::line`: the one-based line number at which the
/// failure was detected.
pub assume_specification[ JsonError::line ](error: &JsonError) -> usize;

/// Relies on serde_json's `Error::column`: the column number at which the
/// failure was detected.
pub assume_specification[ JsonError::column ](error: &JsonError) -> usize;

/// Relies on serde_yaml's `Error::location`: the input position of the failure,
/// when one is known.
pub assume_specification[ YamlError::location ](error: &YamlError) -> Option<
    YamlLocation,
>;

/// Relies on serde_json's Display implementation of its error type for the error text.
#[verifier::external_body]
pub(crate) fn json_error_text(error: &JsonError) -> (r: String) {
    format!("{}", error)
}

/// Relies on serde_yaml's Display implementation of its error type for the error text.
#[verifier::external_body]
pub(crate) fn yaml_error_text(error: &YamlError) -> (r: String) {
    format!("{}", error)
}

#[verifier::external_type_specification]
#[verifier::external_body]
pub struct ExUrl(url::Url);

/// Whether a string parses as an absolute URL: url::Url::parse succeeds or
/// fails depending on the input string alone.
pub uninterp spec fn uri_parses(uri: Seq<char>) -> bool;

/// Relies on url::Url::parse: parses an absolute URL from a string.
#[verifier::external_body]
pub(crate) fn parse_uri(uri: &str) -> (r: Option<url::Url>)
    ensures
        r is Some <==> uri_parses(uri@),
{
    url::Url::parse(uri).ok()
}

/// Relies on url::Url::path_segments: the slash-separated segments of the
/// URL's path, each handed over as an owned string; empty when the URL
/// cannot be a base.
#[verifier::external_body]
pub(crate) fn uri_path_segments(parsed: &url::Url) -> (r: Vec<String>) {
    match parsed.path_segments() {
        Some(segments) => segments.map(str::to_owned).collect(),
        None => Vec::new(),
    }
}

} // verus!
