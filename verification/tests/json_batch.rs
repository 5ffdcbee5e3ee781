use eio_daemon::json_batch::{batch_from_json, Json, JsonError, Number, Signal, Value};

/// The parser's half: JSON text into the tree the library reads, as the daemon's command line
/// does it.
fn tree(json: &serde_json::Value) -> Json {
    match json {
        serde_json::Value::Null => Json::Null,
        serde_json::Value::Bool(b) => Json::Bool(*b),
        serde_json::Value::String(s) => Json::Str(s.clone()),
        serde_json::Value::Number(n) => Json::Number(match (n.as_i64(), n.as_u64()) {
            (Some(i), _) => Number::Int(i),
            (None, Some(u)) => Number::Wide(u),
            _ => Number::Float(n.as_f64().expect("a finite float").to_bits()),
        }),
        serde_json::Value::Array(items) => Json::Array(items.iter().map(tree).collect()),
        serde_json::Value::Object(members) => {
            Json::Object(members.iter().map(|(k, v)| (k.clone(), tree(v))).collect())
        }
    }
}

fn batch(text: &str) -> Result<Vec<Signal>, JsonError> {
    let parsed: serde_json::Value =
        serde_json::from_str(text).map_err(|error| JsonError { path: String::new(), message: error.to_string() })?;
    batch_from_json(&tree(&parsed))
}

fn field(text: &str) -> Value {
    let mut signals = batch(text).expect("valid");
    let signal = signals.remove(0);
    signal.fields.into_iter().find(|(k, _)| k == "v").expect("a field v").1
}

#[test]
fn an_empty_batch_is_legal() {
    assert_eq!(batch("[]"), Ok(Vec::new()));
}

#[test]
fn ints_and_floats_are_told_apart_by_how_they_are_written() {
    assert_eq!(field(r#"[{"v": 1}]"#), Value::Int(1));
    assert_eq!(field(r#"[{"v": 1.0}]"#), Value::Float(1.0f64.to_bits()));
    assert_eq!(field(r#"[{"v": 1e0}]"#), Value::Float(1.0f64.to_bits()));
    assert_eq!(field(r#"[{"v": -0.0}]"#), Value::Float((-0.0f64).to_bits()));
}

#[test]
fn the_rest_of_the_value_space_survives_exactly() {
    assert_eq!(field(r#"[{"v": null}]"#), Value::Null);
    assert_eq!(field(r#"[{"v": true}]"#), Value::Bool(true));
    assert_eq!(field(r#"[{"v": "s"}]"#), Value::Str(String::from("s")));
    assert_eq!(
        field(r#"[{"v": [1, "two"]}]"#),
        Value::Array(vec![Value::Int(1), Value::Str(String::from("two"))])
    );
    let Value::Record(nested) = field(r#"[{"v": {"k": 2}}]"#) else { panic!("a map") };
    assert_eq!(nested, vec![(String::from("k"), Value::Int(2))]);
}

#[test]
fn an_integer_outside_i64_is_refused_rather_than_rounded() {
    let error = batch(r#"[{"v": 9223372036854775808}]"#).expect_err("outside i64");
    assert_eq!(error.path, "[0].v");
    assert!(error.describe().contains("i64"));
}

#[test]
fn the_shape_has_to_be_an_array_of_objects() {
    assert!(batch(r#"{"v": 1}"#).is_err());
    assert!(batch("[1]").is_err());
    assert!(batch("not json").is_err());
    assert_eq!(batch("[{}, 2]").expect_err("second is not an object").path, "[1]");
}

#[test]
fn an_error_names_the_path_it_was_found_at() {
    let error = batch(r#"[{"a": 1}, {"tags": [0, 9223372036854775808]}]"#).expect_err("outside i64");
    assert_eq!(error.path, "[1].tags[1]");
    assert!(error.describe().starts_with("at [1].tags[1]:"));
}

#[test]
fn the_first_error_in_document_order_is_the_one_reported() {
    let error = batch(r#"[{"a": [1, {"b": 9223372036854775808}], "z": 9223372036854775809}]"#).unwrap_err();
    assert_eq!(error.path, "[0].a[1].b");
    assert_eq!(error.message, "an integer outside i64 is outside the value space");
    let whole = batch("3").unwrap_err();
    assert_eq!(whole.path, "");
    assert_eq!(whole.describe(), "a batch is a JSON array of objects", "no path, no prefix");
    let signal = batch("[true]").unwrap_err();
    assert_eq!(signal.describe(), "at [0]: a signal is a JSON object");
}

#[test]
fn each_signal_keeps_its_fields() {
    let signals = batch(r#"[{"b": 2, "a": 1}, {"z": [true, null]}]"#).expect("valid");
    assert_eq!(signals.len(), 2);
    assert_eq!(signals[0].fields, vec![(String::from("a"), Value::Int(1)), (String::from("b"), Value::Int(2))]);
    assert_eq!(signals[1].fields, vec![(String::from("z"), Value::Array(vec![Value::Bool(true), Value::Null]))]);
}
