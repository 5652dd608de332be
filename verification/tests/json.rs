use tessera_model_gate::json::{has_field, json_equal, JsonNumber, JsonValue};

fn s(text: &str) -> JsonValue {
    JsonValue::String(text.into())
}

fn obj(members: Vec<(&str, JsonValue)>) -> JsonValue {
    JsonValue::Object(members.into_iter().map(|(k, v)| (k.to_string(), v)).collect())
}

#[test]
fn scalars_compare_by_value_and_kind() {
    assert!(json_equal(&JsonValue::Null, &JsonValue::Null));
    assert!(json_equal(&JsonValue::Bool(true), &JsonValue::Bool(true)));
    assert!(!json_equal(&JsonValue::Bool(true), &JsonValue::Bool(false)));
    assert!(json_equal(&s("a"), &s("a")));
    assert!(!json_equal(&s("a"), &s("A")));
    assert!(!json_equal(&JsonValue::Null, &JsonValue::Bool(false)));
    let one = JsonValue::Number(JsonNumber::PosInt(1));
    let one_float = JsonValue::Number(JsonNumber::Float(1.0f64.to_bits()));
    assert!(!json_equal(&one, &one_float));
    assert!(json_equal(&one, &JsonValue::Number(JsonNumber::PosInt(1))));
    assert!(!json_equal(&JsonValue::Number(JsonNumber::NegInt(-1)), &JsonValue::Number(JsonNumber::NegInt(-2))));
}

#[test]
fn zero_and_negative_zero_are_equal() {
    let zero = JsonValue::Number(JsonNumber::Float(0.0f64.to_bits()));
    let negative_zero = JsonValue::Number(JsonNumber::Float((-0.0f64).to_bits()));
    assert!(json_equal(&zero, &negative_zero));
    let half = JsonValue::Number(JsonNumber::Float(0.5f64.to_bits()));
    assert!(!json_equal(&zero, &half));
}

#[test]
fn arrays_compare_in_order() {
    let a = JsonValue::Array(vec![s("x"), s("y")]);
    let b = JsonValue::Array(vec![s("x"), s("y")]);
    let c = JsonValue::Array(vec![s("y"), s("x")]);
    let d = JsonValue::Array(vec![s("x")]);
    assert!(json_equal(&a, &b));
    assert!(!json_equal(&a, &c));
    assert!(!json_equal(&a, &d));
}

#[test]
fn objects_compare_members_in_any_order() {
    let a = obj(vec![("risk", s("high")), ("action", s("correct"))]);
    let b = obj(vec![("action", s("correct")), ("risk", s("high"))]);
    let c = obj(vec![("action", s("ignore")), ("risk", s("high"))]);
    let d = obj(vec![("risk", s("high"))]);
    assert!(json_equal(&a, &b));
    assert!(!json_equal(&a, &c));
    assert!(!json_equal(&a, &d));
    assert!(!json_equal(&d, &a));
}

#[test]
fn fields_are_found_only_in_objects() {
    let a = obj(vec![("risk", s("low"))]);
    assert!(has_field(&a, "risk"));
    assert!(!has_field(&a, "action"));
    assert!(!has_field(&JsonValue::Array(vec![s("risk")]), "risk"));
    assert!(!has_field(&s("risk"), "risk"));
}
