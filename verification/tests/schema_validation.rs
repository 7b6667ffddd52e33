//! The schema engine: pointer resolution and query validation against every
//! schema variant.

use ardite::query::Query;
use ardite::schema::{Schema, SchemaPrimitive};
use ardite::value::Value;

fn s(text: &str) -> String {
    text.to_string()
}

fn point(keys: &[&str]) -> Vec<String> {
    keys.iter().map(|k| k.to_string()).collect()
}

/// An object schema with the properties hello, world, 5 and goodbye, where
/// goodbye is itself an object with hello and world.
fn sample_object() -> Schema {
    let mut object = Schema::object();
    object.add_property(s("hello"), Schema::Boolean(Schema::boolean()));
    object.add_property(s("world"), Schema::Boolean(Schema::boolean()));
    object.add_property(s("5"), Schema::Boolean(Schema::boolean()));
    let mut goodbye = Schema::object();
    goodbye.add_property(s("hello"), Schema::Boolean(Schema::boolean()));
    goodbye.add_property(s("world"), Schema::Boolean(Schema::boolean()));
    object.add_property(s("goodbye"), Schema::Object(goodbye));
    Schema::Object(object)
}

#[test]
fn test_schema_equality() {
    let mut object_2_raw = Schema::object();
    object_2_raw.set_required(vec![s("hello"), s("a")]);
    object_2_raw.enable_additional_properties();
    object_2_raw.add_property(s("goodbye"), Schema::Boolean(Schema::boolean()));
    let mut object_3_raw = Schema::object();
    object_3_raw.add_property(s("hello"), Schema::Number(Schema::number()));
    object_3_raw.add_property(s("goodbye"), {
        let mut object = Schema::object();
        object.add_property(s("a"), Schema::Number(Schema::number()));
        Schema::Object(object)
    });
    let mut array_1_raw = Schema::array();
    array_1_raw.set_items({
        let mut object = Schema::object();
        object.add_property(s("num"), Schema::Number(Schema::number()));
        Schema::Object(object)
    });
    let mut array_2_raw = Schema::array();
    array_2_raw.set_items(Schema::Number(Schema::number()));

    let number = Schema::Number(Schema::number());
    let object_1 = Schema::Object(Schema::object());
    let object_2 = Schema::Object(object_2_raw);
    let object_3 = Schema::Object(object_3_raw);
    let array_1 = Schema::Array(array_1_raw);
    let array_2 = Schema::Array(array_2_raw);

    let schemas: Vec<Schema> = vec![number, object_1, object_2, object_3, array_1, array_2];

    for schema_1 in &schemas {
        assert!(schema_1.eq(schema_1));
        let mut equals = 0;
        for schema_2 in &schemas {
            if schema_1.eq(schema_2) {
                if equals > 0 {
                    panic!("Schema should only equal itself!");
                } else {
                    equals += 1;
                }
            }
        }
        assert_eq!(equals, 1);
    }
}

#[test]
fn test_get_primitive() {
    assert!(Schema::none().get(&point(&[])).unwrap().eq(&Schema::none()));
    assert!(Schema::none().get(&point(&["hello"])).is_none());
    assert!(Schema::boolean().get(&point(&[])).unwrap().eq(&Schema::boolean()));
    assert!(Schema::boolean().get(&point(&["hello"])).is_none());
    assert!(Schema::number().get(&point(&["hello"])).is_none());
    assert!(Schema::string().get(&point(&["hello"])).is_none());
}

#[test]
fn test_get_array() {
    let array_none = Schema::Array(Schema::array());
    let mut array_bool_raw = Schema::array();
    array_bool_raw.set_items(Schema::Boolean(Schema::boolean()));
    let array_bool = Schema::Array(array_bool_raw);
    assert!(array_none.get(&point(&["1"])).is_none());
    assert!(array_none.get(&point(&["asd"])).is_none());
    assert_eq!(
        array_bool.get(&point(&["1"])).unwrap(),
        &Schema::Boolean(Schema::boolean())
    );
    assert_eq!(
        array_bool.get(&point(&["9999999"])).unwrap(),
        &Schema::Boolean(Schema::boolean())
    );
    assert!(array_bool.get(&point(&["asd"])).is_none());
}

#[test]
fn test_get_object() {
    let object = sample_object();
    assert!(object.get(&point(&["yo"])).is_none());
    assert_eq!(
        object.get(&point(&["hello"])).unwrap(),
        &Schema::Boolean(Schema::boolean())
    );
    assert_eq!(
        object.get(&point(&["goodbye", "world"])).unwrap(),
        &Schema::Boolean(Schema::boolean())
    );
    assert!(object.get(&point(&["goodbye", "yo"])).is_none());
}

#[test]
fn test_query_none() {
    assert!(Schema::none().validate_query(&Query::All).is_ok());
    assert!(Schema::none()
        .validate_query(&Query::Keys(vec![
            (s("s@#f&/Ij)82h(;pa0]"), Query::All),
            (s("123"), Query::All),
            (s("hello"), Query::All),
            (s("nested"), Query::Keys(vec![(s("yo"), Query::All)])),
        ]))
        .is_ok());
}

#[test]
fn test_query_primitive() {
    assert!(Schema::null().validate_query(&Query::All).is_ok());
    let obj_query = Query::Keys(vec![]);
    assert!(Schema::null()
        .validate_query(&obj_query)
        .unwrap_err()
        .message()
        .contains("deeply query"));
    assert!(Schema::boolean()
        .validate_query(&obj_query)
        .unwrap_err()
        .message()
        .contains("deeply query"));
    assert!(Schema::number()
        .validate_query(&obj_query)
        .unwrap_err()
        .message()
        .contains("deeply query"));
    assert!(Schema::string()
        .validate_query(&obj_query)
        .unwrap_err()
        .message()
        .contains("deeply query"));
    assert!(Schema::enum_(vec![Value::Boolean(true), Value::Boolean(false)])
        .validate_query(&obj_query)
        .unwrap_err()
        .message()
        .contains("deeply query"));
}

#[test]
fn test_query_array() {
    let array_none = Schema::array();
    let mut array_bool = Schema::array();
    array_bool.set_items(Schema::Boolean(Schema::boolean()));
    assert!(array_none.validate_query(&Query::All).is_ok());
    assert!(array_none
        .validate_query(&Query::Keys(vec![(s("1"), Query::All)]))
        .is_ok());
    assert!(array_none
        .validate_query(&Query::Keys(vec![(s("1"), Query::Keys(vec![]))]))
        .is_ok());
    assert!(array_bool
        .validate_query(&Query::Keys(vec![
            (s("1"), Query::All),
            (s("2"), Query::All),
            (s("3"), Query::All),
            (s("50"), Query::All),
            (s("9999999999999"), Query::All),
        ]))
        .is_ok());
    assert!(array_none
        .validate_query(&Query::Keys(vec![(s("hello"), Query::All)]))
        .unwrap_err()
        .message()
        .contains("non-integer \"hello\""));
    assert!(array_bool
        .validate_query(&Query::Keys(vec![(s("1"), Query::Keys(vec![]))]))
        .unwrap_err()
        .message()
        .contains("deeply query"));
}

#[test]
fn test_query_object() {
    let object = match sample_object() {
        Schema::Object(object) => object,
        _ => unreachable!(),
    };
    let mut object_additional = Schema::object();
    object_additional.enable_additional_properties();
    object_additional.add_property(s("hello"), Schema::Boolean(Schema::boolean()));
    object_additional.add_property(s("world"), Schema::Boolean(Schema::boolean()));
    assert!(object
        .validate_query(&Query::Keys(vec![
            (s("world"), Query::All),
            (s("5"), Query::All),
            (s("goodbye"), Query::All),
        ]))
        .is_ok());
    assert_eq!(
        object
            .validate_query(&Query::Keys(vec![
                (s("hello"), Query::All),
                (s("moon"), Query::All),
            ]))
            .unwrap_err()
            .message(),
        "Cannot query object property \"moon\"."
    );
    assert!(object
        .validate_query(&Query::Keys(vec![(s("hello"), Query::Keys(vec![]))]))
        .unwrap_err()
        .message()
        .contains("deeply query"));
    assert!(object
        .validate_query(&Query::Keys(vec![(
            s("goodbye"),
            Query::Keys(vec![(s("hello"), Query::All)]),
        )]))
        .is_ok());
    assert!(object
        .validate_query(&Query::Keys(vec![(
            s("goodbye"),
            Query::Keys(vec![(s("hello"), Query::Keys(vec![]))]),
        )]))
        .unwrap_err()
        .message()
        .contains("deeply query"));
    assert!(object_additional
        .validate_query(&Query::Keys(vec![
            (s("world"), Query::All),
            (s("5"), Query::All),
            (s("goodbye"), Query::All),
            (s("moon"), Query::All),
        ]))
        .is_ok());
}

#[test]
fn test_query_array_accepts_any_integer_index() {
    let mut array_bool = Schema::array();
    array_bool.set_items(Schema::Boolean(Schema::boolean()));
    assert!(array_bool
        .validate_query(&Query::Keys(vec![
            (s("1"), Query::All),
            (s("9999999"), Query::All),
        ]))
        .is_ok());
}

#[test]
fn test_query_array_names_offending_key() {
    let array_none = Schema::array();
    let error = array_none
        .validate_query(&Query::Keys(vec![(s("hello"), Query::All)]))
        .unwrap_err();
    assert_eq!(
        error.message(),
        "Cannot query non-integer \"hello\" array property."
    );
    assert_eq!(error.code().to_u16(), 400);
}

#[test]
fn test_all_query_validates_against_every_variant() {
    let schemas: Vec<Schema> = vec![
        Schema::Unconstrained(Schema::none()),
        Schema::Null(Schema::null()),
        Schema::Boolean(Schema::boolean()),
        Schema::Number(Schema::number()),
        Schema::String(Schema::string()),
        Schema::Array(Schema::array()),
        sample_object(),
        Schema::Enum(Schema::enum_(vec![Value::I64(1)])),
    ];
    for schema in &schemas {
        assert!(schema.validate_query(&Query::All).is_ok());
    }
}

#[test]
fn test_add_property_replaces_in_place() {
    let mut object = Schema::object();
    object.add_property(s("a"), Schema::Boolean(Schema::boolean()));
    object.add_property(s("b"), Schema::Null(Schema::null()));
    object.add_property(s("a"), Schema::Number(Schema::number()));
    assert_eq!(object.properties().len(), 2);
    assert_eq!(object.properties()[0].0, "a");
    assert_eq!(object.properties()[0].1, Schema::Number(Schema::number()));
    assert_eq!(object.properties()[1].0, "b");
    let schema = Schema::Object(object);
    assert_eq!(
        schema.get(&point(&["a"])).unwrap(),
        &Schema::Number(Schema::number())
    );
}

#[test]
fn test_empty_keys_query_validates_against_composites() {
    let empty = Query::Keys(vec![]);
    assert!(Schema::array().validate_query(&empty).is_ok());
    assert!(Schema::object().validate_query(&empty).is_ok());
    assert!(Schema::none().validate_query(&empty).is_ok());
}

#[test]
fn test_validation_stops_at_first_failing_key() {
    let object = match sample_object() {
        Schema::Object(object) => object,
        _ => unreachable!(),
    };
    let error = object
        .validate_query(&Query::Keys(vec![
            (s("moon"), Query::All),
            (s("sun"), Query::All),
        ]))
        .unwrap_err();
    assert_eq!(error.message(), "Cannot query object property \"moon\".");
}
