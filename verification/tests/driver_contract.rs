//! The driver contract: connection-string validation and the one-record
//! read built atop `read`.

use ardite::driver::{connect_database, select_one, Driver};
use ardite::error::{Code, Error};
use ardite::query::{Condition, Query, Range, SortRule};
use ardite::value::Value;

fn s(text: &str) -> String {
    text.to_string()
}

/// A backend that hands back a fixed set of records and ignores the request.
struct CannedDriver {
    records: Vec<Value>,
}

impl Driver for CannedDriver {
    fn connect(_uri: &str) -> Result<Self, Error> {
        Ok(CannedDriver { records: Vec::new() })
    }

    fn read(
        &self,
        _type_: &str,
        _condition: Condition,
        _sort: Vec<SortRule>,
        _range: Range,
        _query: Query,
    ) -> Result<Vec<Value>, Error> {
        let mut out = Vec::new();
        for record in &self.records {
            out.push(record.clone());
        }
        Ok(out)
    }
}

#[test]
fn test_read_one_zero_records_is_not_found() {
    let driver = CannedDriver { records: vec![] };
    let error = driver
        .read_one("things", Condition::True, Query::All)
        .unwrap_err();
    assert_eq!(error.code(), &Code::NotFound);
    assert_eq!(error.message(), "No value was found for the condition.");
}

#[test]
fn test_read_one_two_records_is_internal() {
    let driver = CannedDriver {
        records: vec![Value::I64(1), Value::I64(2)],
    };
    let error = driver
        .read_one("things", Condition::True, Query::All)
        .unwrap_err();
    assert_eq!(error.code(), &Code::Internal);
    assert_eq!(
        error.message(),
        "Read with a limit of one returned more than one value."
    );
}

#[test]
fn test_read_one_single_record_is_returned() {
    let driver = CannedDriver {
        records: vec![Value::String(s("only"))],
    };
    let value = driver
        .read_one("things", Condition::True, Query::All)
        .unwrap();
    assert_eq!(value, Value::String(s("only")));
}

#[test]
fn test_select_one_directly() {
    assert_eq!(select_one(vec![Value::I64(7)]).unwrap(), Value::I64(7));
    assert_eq!(
        select_one(vec![]).unwrap_err().code(),
        &Code::NotFound
    );
    assert_eq!(
        select_one(vec![Value::Null, Value::Null, Value::Null])
            .unwrap_err()
            .code(),
        &Code::Internal
    );
}

#[test]
fn test_connect_database_reads_the_path() {
    let db = connect_database("mongodb://localhost:27017/ardite_test").unwrap();
    assert_eq!(db, "ardite_test");
}

#[test]
fn test_connect_without_database_is_rejected() {
    let error = connect_database("mongodb://localhost:27017/").unwrap_err();
    assert_eq!(error.code(), &Code::BadRequest);
    assert_eq!(
        error.message(),
        "Database name not provided in connection path 'mongodb://localhost:27017/'."
    );
    assert!(error.hint().is_some());
}

#[test]
fn test_connect_with_unparseable_uri_is_rejected() {
    let error = connect_database("not a uri at all").unwrap_err();
    assert_eq!(error.code(), &Code::BadRequest);
    assert!(error.message().contains("Failed to parse connection URI"));
}
