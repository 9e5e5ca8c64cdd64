use data_processor::process_data;
use serde_json::Value;

type Record = serde_json::Map<String, Value>;

fn sample_record() -> Record {
    let mut nested = Record::new();
    nested.insert("x".to_string(), Value::from(-2));
    let mut m = Record::new();
    m.insert("name".to_string(), Value::from("widget"));
    m.insert("count".to_string(), Value::from(3));
    m.insert("ratio".to_string(), Value::from(0.5));
    m.insert("ok".to_string(), Value::Bool(true));
    m.insert("none".to_string(), Value::Null);
    m.insert("items".to_string(), Value::Array(vec![Value::from(1), Value::from("two")]));
    m.insert("inner".to_string(), Value::Object(nested));
    m
}

#[test]
fn empty_record_is_braces() {
    assert_eq!(process_data(&Record::new()).unwrap(), "{}");
}

#[test]
fn pretty_output_is_exact() {
    let mut m = Record::new();
    m.insert("b".to_string(), Value::Array(vec![Value::Bool(true), Value::Null]));
    m.insert("a".to_string(), Value::from(1));
    let text = process_data(&m).unwrap();
    assert_eq!(text, "{\n  \"a\": 1,\n  \"b\": [\n    true,\n    null\n  ]\n}");
}

#[test]
fn output_is_deterministic() {
    let r = sample_record();
    assert_eq!(process_data(&r).unwrap(), process_data(&r.clone()).unwrap());
}

#[test]
fn round_trip_restores_record() {
    let r = sample_record();
    let text = process_data(&r).unwrap();
    let back: Record = serde_json::from_str(&text).unwrap();
    assert_eq!(back, r);
}

#[test]
fn non_finite_number_cannot_enter_a_record() {
    assert!(serde_json::Number::from_f64(f64::NAN).is_none());
    assert!(serde_json::Number::from_f64(f64::INFINITY).is_none());
    let mut m = Record::new();
    m.insert("v".to_string(), Value::from(f64::NAN));
    assert_eq!(process_data(&m).unwrap(), "{\n  \"v\": null\n}");
}
