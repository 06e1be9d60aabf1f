use pnwkit::value::{variable, Object, Value, VariableType};

fn text(s: &str) -> Value {
    Value::String(s.to_string())
}

fn float(s: &str) -> Value {
    Value::Float(s.to_string())
}

#[test]
fn as_i64_reads_int_text_and_float() {
    assert_eq!(Value::Int(42).as_i64(), Some(42));
    assert_eq!(text("42").as_i64(), Some(42));
    assert_eq!(text("-5").as_i64(), Some(-5));
    assert_eq!(text("+7").as_i64(), Some(7));
    assert_eq!(text("abc").as_i64(), None);
    assert_eq!(text("").as_i64(), None);
    assert_eq!(text("99999999999999999999").as_i64(), None);
    assert_eq!(float("3.7").as_i64(), Some(3));
    assert_eq!(float("-2.9").as_i64(), Some(-2));
    assert_eq!(Value::Bool(true).as_i64(), None);
    assert_eq!(Value::Null.as_i64(), None);
}

#[test]
fn narrow_integer_coercions() {
    assert_eq!(Value::Int(300).as_u8(), Some(44));
    assert_eq!(Value::Int(-1).as_i8(), Some(-1));
    assert_eq!(text("300").as_u8(), None);
    assert_eq!(text("-1").as_u8(), None);
    assert_eq!(text("255").as_u8(), Some(255));
    assert_eq!(text("-128").as_i8(), Some(-128));
    assert_eq!(float("300.5").as_u8(), Some(255));
    assert_eq!(float("-3.5").as_u16(), Some(0));
    assert_eq!(float("NaN").as_i32(), Some(0));
    assert_eq!(float("inf").as_i16(), Some(i16::MAX));
    assert_eq!(float("-inf").as_i64(), Some(i64::MIN));
    assert_eq!(float("100000000000000000000000000000000000000000.0").as_u32(), Some(u32::MAX));
    assert_eq!(text("340282366920938463463374607431768211455").as_u128(), Some(u128::MAX));
    assert_eq!(text("170141183460469231731687303715884105727").as_i128(), Some(i128::MAX));
    assert_eq!(Value::Int(7).as_u64(), Some(7));
    assert_eq!(text("65535").as_u16(), Some(65535));
    assert_eq!(text("2147483648").as_i32(), None);
    assert_eq!(text("4294967295").as_u32(), Some(u32::MAX));
    assert_eq!(text("-32768").as_i16(), Some(i16::MIN));
}

#[test]
fn bool_and_text_coercions() {
    assert_eq!(Value::Bool(false).as_bool(), Some(false));
    assert_eq!(Value::Int(0).as_bool(), Some(false));
    assert_eq!(Value::Int(5).as_bool(), Some(true));
    assert_eq!(text("true").as_bool(), None);
    assert_eq!(text("hi").as_string(), Some("hi".to_string()));
    assert_eq!(text("hi").as_str(), Some("hi"));
    assert_eq!(Value::Int(1).as_string(), None);
    assert!(text("x").is_string());
    assert!(!Value::Null.is_string());
}

#[test]
fn object_keeps_insertion_order_and_replaces_in_place() {
    let mut o = Object::new();
    assert!(o.is_empty());
    o.insert("b".to_string(), Value::Int(1));
    o.insert("a".to_string(), Value::Int(2));
    o.insert("b".to_string(), Value::Int(3));
    assert_eq!(o.len(), 2);
    assert_eq!(o.entries[0].0, "b");
    assert_eq!(o.get("b").unwrap().as_i64(), Some(3));
    assert_eq!(o.get("a").unwrap().as_i64(), Some(2));
    assert!(o.get("c").is_none());
    assert!(o.contains_key("a"));
    let removed = o.remove("b").unwrap();
    assert_eq!(removed.as_i64(), Some(3));
    assert_eq!(o.len(), 1);
    assert!(o.remove("b").is_none());
}

#[test]
fn copies_are_deep() {
    let mut inner = Object::new();
    inner.insert("id".to_string(), text("1"));
    let v = Value::Array(vec![Value::Object(inner), float("1.5"), Value::Null]);
    let c = v.copy();
    assert_eq!(c.to_json(), v.to_json());
    assert_eq!(c.as_array().unwrap().len(), 3);
    let o = c.as_array().unwrap()[0].as_object().unwrap();
    assert_eq!(o.get("id").unwrap().as_str(), Some("1"));
}

#[test]
fn conversions_into_values() {
    assert_eq!(Value::from(5i64).as_i64(), Some(5));
    assert_eq!(Value::from(5i32).as_i64(), Some(5));
    assert_eq!(Value::from(true).as_bool(), Some(true));
    assert_eq!(Value::from("x".to_string()).as_str(), Some("x"));
    assert_eq!(Value::from(vec![Value::Int(1)]).as_array().unwrap().len(), 1);
    assert!(Value::from(Object::new()).as_object().is_some());
    let v = Value::from(variable("id", VariableType::Int));
    assert_eq!(v.resolve(), "$id");
    assert_eq!(Value::text("y").as_str(), Some("y"));
}

#[test]
fn equality_ignores_entry_order_only() {
    let mut a = Object::new();
    a.insert("x".to_string(), Value::Int(1));
    a.insert("y".to_string(), Value::Array(vec![Value::Bool(true), Value::Null]));
    let mut b = Object::new();
    b.insert("y".to_string(), Value::Array(vec![Value::Bool(true), Value::Null]));
    b.insert("x".to_string(), Value::Int(1));
    assert_eq!(Value::Object(a.clone()), Value::Object(b));
    let mut c = Object::new();
    c.insert("x".to_string(), Value::Int(1));
    assert_ne!(Value::Object(a.clone()), Value::Object(c));
    assert_ne!(
        Value::Array(vec![Value::Int(1), Value::Int(2)]),
        Value::Array(vec![Value::Int(2), Value::Int(1)])
    );
    assert_ne!(Value::Int(1), Value::Float("1".to_string()));
    assert_eq!(Value::Object(a.clone()).clone(), Value::Object(a));
    assert_eq!(
        Value::from(variable("v", VariableType::Int)),
        Value::from(variable("v", VariableType::Int))
    );
    assert_ne!(
        Value::from(variable("v", VariableType::Int)),
        Value::from(variable("v", VariableType::String))
    );
}

#[test]
fn duplicate_keys_are_detected() {
    let mut o = Object::new();
    o.insert("a".to_string(), Value::Int(1));
    o.insert("b".to_string(), Value::Int(2));
    assert!(o.keys_are_unique());
    o.entries.push(("a".to_string(), Value::Int(3)));
    assert!(!o.keys_are_unique());
    assert_eq!(o.get("a").unwrap().as_i64(), Some(1));
}
