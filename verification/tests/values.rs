//! The value model: pointer-based addressing into nested values.

use ardite::value::Value;

fn s(text: &str) -> String {
    text.to_string()
}

fn point(keys: &[&str]) -> Vec<String> {
    keys.iter().map(|k| k.to_string()).collect()
}

/// {a: 1, b: {c: [10, 20], d: null}, e: "hi"}
fn sample_value() -> Value {
    Value::Object(vec![
        (s("a"), Value::I64(1)),
        (
            s("b"),
            Value::Object(vec![
                (s("c"), Value::Array(vec![Value::I64(10), Value::I64(20)])),
                (s("d"), Value::Null),
            ]),
        ),
        (s("e"), Value::String(s("hi"))),
    ])
}

#[test]
fn test_value_get_empty_pointer_is_whole_value() {
    let value = sample_value();
    assert_eq!(value.get(&point(&[])), Some(&value));
}

#[test]
fn test_value_get_object_keys() {
    let value = sample_value();
    assert_eq!(value.get(&point(&["a"])), Some(&Value::I64(1)));
    assert_eq!(value.get(&point(&["b", "d"])), Some(&Value::Null));
    assert_eq!(value.get(&point(&["e"])), Some(&Value::String(s("hi"))));
    assert_eq!(value.get(&point(&["missing"])), None);
    assert_eq!(value.get(&point(&["a", "deeper"])), None);
}

#[test]
fn test_value_get_array_indexes() {
    let value = sample_value();
    assert_eq!(value.get(&point(&["b", "c", "0"])), Some(&Value::I64(10)));
    assert_eq!(value.get(&point(&["b", "c", "1"])), Some(&Value::I64(20)));
    assert_eq!(value.get(&point(&["b", "c", "2"])), None);
    assert_eq!(value.get(&point(&["b", "c", "hello"])), None);
    // Leading zeros still parse as the same index.
    assert_eq!(value.get(&point(&["b", "c", "01"])), Some(&Value::I64(20)));
    // An index too large for any array is a normal nothing-found.
    assert_eq!(value.get(&point(&["b", "c", "99999999999999999999999"])), None);
}

#[test]
fn test_value_float_carries_bits() {
    let value = Value::F64((1.5f64).to_bits());
    assert_eq!(value, Value::F64((1.5f64).to_bits()));
    assert_ne!(value, Value::F64((2.5f64).to_bits()));
}

#[test]
fn test_value_clone_is_deep() {
    let value = sample_value();
    let copy = value.clone();
    assert_eq!(copy, value);
}
