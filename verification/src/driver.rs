//! The capability contract a storage backend adapter implements: it consumes
//! a schema type name, a condition, sort rules, a range and a query, and
//! produces the matching values.

use vstd::prelude::*;
use vstd::string::StringExecFns;

use crate::error::{Code, Error, ErrorModel};
use crate::outside::{parse_uri, uri_parses, uri_path_segments};
use crate::query::{Condition, Query, Range, SortRule};
use crate::value::Value;

verus! {

/// The error rejecting a connection URI that does not parse as a URL.
pub open spec fn invalid_uri_error(uri: Seq<char>) -> ErrorModel {
    ErrorModel {
        code: Code::BadRequest,
        message: "Failed to parse connection URI '"@ + uri + "'."@,
        hint: Some("Make sure the connection URI is a valid absolute URL."@),
    }
}

/// The error rejecting a connection URI whose path names no database.
pub open spec fn missing_database_error(uri: Seq<char>) -> ErrorModel {
    ErrorModel {
        code: Code::BadRequest,
        message: "Database name not provided in connection path '"@ + uri + "'."@,
        hint: Some("Include the database name you are connecting to as the connection URI path."@),
    }
}

/// Builds the error rejecting an unparseable connection URI.
fn make_invalid_uri_error(uri: &str) -> (r: Error)
    ensures
        r@ == invalid_uri_error(uri@),
{
    let mut message = "Failed to parse connection URI '".to_owned();
    message.append(uri);
    message.append("'.");
    Error::invalid(message, "Make sure the connection URI is a valid absolute URL.".to_owned())
}

/// Builds the error rejecting a URI whose path names no database.
fn make_missing_database_error(uri: &str) -> (r: Error)
    ensures
        r@ == missing_database_error(uri@),
{
    let mut message = "Database name not provided in connection path '".to_owned();
    message.append(uri);
    message.append("'.");
    Error::invalid(
        message,
        "Include the database name you are connecting to as the connection URI path.".to_owned(),
    )
}

/// Picks the database name out of a connection URI's path segments: the
/// first segment carries it, and an absent or empty first segment means the
/// URI named no database, which is rejected with a hint naming the fix.
pub fn database_from_segments(uri: &str, segments: &Vec<String>) -> (r: Result<String, Error>)
    ensures
        match r {
            Ok(db) => segments.deep_view().len() > 0 && db@ == segments.deep_view()[0] && db@.len()
                > 0,
            Err(e) => (segments.deep_view().len() == 0 || segments.deep_view()[0].len() == 0) && e@
                == missing_database_error(uri@),
        },
{
    if segments.len() == 0 {
        return Err(make_missing_database_error(uri));
    }
    proof {
        assert(segments.deep_view()[0] == segments@[0]@);
    }
    if segments[0].as_str().is_empty() {
        Err(make_missing_database_error(uri))
    } else {
        Ok(segments[0].clone())
    }
}

/// Resolves the database name a connection URI addresses: the first segment
/// of the URI's path. A URI that does not parse, or whose path names no
/// database, is rejected with a BadRequest error carrying a remediation
/// hint; the name handed back is never empty.
pub fn connect_database(uri: &str) -> (r: Result<String, Error>)
    ensures
        match r {
            Ok(db) => uri_parses(uri@) && db@.len() > 0,
            Err(e) => (!uri_parses(uri@) && e@ == invalid_uri_error(uri@)) || (uri_parses(uri@)
                && e@ == missing_database_error(uri@)),
        },
{
    match parse_uri(uri) {
        Some(parsed) => {
            let segments = uri_path_segments(&parsed);
            database_from_segments(uri, &segments)
        },
        None => Err(make_invalid_uri_error(uri)),
    }
}

/// The error reported when a one-record read matched nothing.
pub open spec fn not_found_error() -> ErrorModel {
    ErrorModel {
        code: Code::NotFound,
        message: "No value was found for the condition."@,
        hint: None,
    }
}

/// The error reported when a backend returned more than one record although
/// exactly one was requested: a contract breach by the backend, not a user
/// error.
pub open spec fn multiple_values_error() -> ErrorModel {
    ErrorModel {
        code: Code::Internal,
        message: "Read with a limit of one returned more than one value."@,
        hint: None,
    }
}

/// Selects the single value of a read that was limited to one record: zero
/// records is NotFound, more than one is an Internal error since the backend
/// violated the requested limit, and exactly one is returned.
pub fn select_one(values: Vec<Value>) -> (r: Result<Value, Error>)
    ensures
        match r {
            Ok(v) => values@.len() == 1 && v == values@[0],
            Err(e) => (values@.len() == 0 && e@ == not_found_error()) || (values@.len() > 1 && e@
                == multiple_values_error()),
        },
{
    let mut values = values;
    if values.len() > 1 {
        return Err(Error::internal("Read with a limit of one returned more than one value.".to_owned()));
    }
    match values.pop() {
        Some(value) => Ok(value),
        None => Err(Error::not_found("No value was found for the condition.".to_owned())),
    }
}

/// The contract every storage backend adapter implements. The core is
/// synchronous: `read` hands back the matching values in backend order, and
/// resource handling stays inside the adapter.
pub trait Driver: Sized {
    /// Connects to a backend and returns a driver instance ready for reads.
    fn connect(uri: &str) -> Result<Self, Error>;

    /// Reads the values matching `condition` from the type named `type_`, ordered by
    /// `sort`, within `range`, each projected through `query`.
    fn read(
        &self,
        type_: &str,
        condition: Condition,
        sort: Vec<SortRule>,
        range: Range,
        query: Query,
    ) -> Result<Vec<Value>, Error>;

    /// Reads a single value: a read with no sort and a limit of one, whose
    /// outcome [`select_one`] narrows to exactly one record.
    fn read_one(&self, type_: &str, condition: Condition, query: Query) -> Result<
        Value,
        Error,
    > {
        let values = match self.read(
            type_,
            condition,
            Vec::new(),
            Range::new(None, Some(1)),
            query,
        ) {
            Ok(values) => values,
            Err(e) => {
                return Err(e);
            },
        };
        select_one(values)
    }
}

} // verus!
