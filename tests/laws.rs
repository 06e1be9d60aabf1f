use pnwkit::event::Event;
use pnwkit::registry::Registry;
use pnwkit::to_query_string::ToQueryString;
use pnwkit::value::{Object, Value};
use pnwkit::variable::Variables;

fn decode(text: &str) -> Value {
    fn conv(v: &serde_json::Value) -> Value {
        match v {
            serde_json::Value::Null => Value::Null,
            serde_json::Value::Bool(b) => Value::Bool(*b),
            serde_json::Value::Number(n) => match n.as_i64() {
                Some(i) => Value::Int(i),
                None => Value::Float(n.as_f64().unwrap().to_string()),
            },
            serde_json::Value::String(t) => Value::String(t.clone()),
            serde_json::Value::Array(a) => Value::Array(a.iter().map(conv).collect()),
            serde_json::Value::Object(m) => {
                let mut o = Object::new();
                for (k, x) in m {
                    o.insert(k.clone(), conv(x));
                }
                Value::Object(o)
            },
        }
    }
    conv(&serde_json::from_str::<serde_json::Value>(text).unwrap())
}

#[test]
fn json_round_trip_every_variant() {
    let mut o = Object::new();
    o.insert("a".to_string(), Value::Int(-3));
    o.insert("b".to_string(), Value::String("q\"u\\o\nte".to_string()));
    let values = vec![
        Value::Null,
        Value::Bool(true),
        Value::Bool(false),
        Value::Int(i64::MIN),
        Value::Float("1.5".to_string()),
        Value::Float("2".to_string()),
        Value::String("héllo".to_string()),
        Value::Object(o),
        Value::Array(vec![Value::Int(1), Value::Array(vec![]), Value::Object(Object::new())]),
    ];
    for v in values {
        let text = v.to_json();
        let back = decode(&text);
        assert_eq!(back, v);
        assert_eq!(back.to_json(), text);
    }
    assert_eq!(Value::Float("2".to_string()).to_json(), "2.0");
    assert_eq!(Value::Float("NaN".to_string()).to_json(), "null");
}

#[test]
fn page_init_twice_is_once() {
    let mut once = Variables::new();
    once.set("x".to_string(), Value::Int(1));
    once.page_init();
    let first = once.to_json();
    once.page_init();
    assert_eq!(once.to_json(), first);
    assert_eq!(first, "{\"x\":1,\"__page\":1}");
    let mut given = Variables::new();
    given.set("__page".to_string(), Value::Int(7));
    given.page_init();
    assert_eq!(given.to_json(), "{\"__page\":7}");
}

#[test]
fn event_set_and_clear_are_idempotent() {
    let mut e = Event::new();
    assert!(!e.is_set());
    e.set();
    let once = e;
    e.set();
    assert_eq!(e, once);
    assert!(e.is_set() && e.wait_passes());
    e.clear();
    let cleared = e;
    e.clear();
    assert_eq!(e, cleared);
    assert!(!e.is_set());
}

#[test]
fn registry_register_lookup_rename() {
    let mut r: Registry<u32> = Registry::new();
    r.register("c".to_string(), 1);
    assert_eq!(r.lookup("c"), Some(&1));
    r.register("d".to_string(), 2);
    r.register("c".to_string(), 3);
    assert_eq!(r.lookup("c"), Some(&3));
    assert_eq!(r.len(), 2);
    assert!(r.rename("c", "e".to_string()));
    assert_eq!(r.lookup("c"), None);
    assert_eq!(r.lookup("e"), Some(&3));
    assert_eq!(r.lookup("d"), Some(&2));
    assert!(!r.rename("zzz", "y".to_string()));
    assert_eq!(r.channels(), vec!["d".to_string(), "e".to_string()]);
    assert_eq!(r.remove("d"), Some(2));
    assert_eq!(r.remove("d"), None);
}

#[test]
fn variables_validation() {
    let mut v = Variables::new();
    v.set("a".to_string(), Value::Int(1));
    assert_eq!(v.valid(vec!["a".to_string()]), Ok(()));
    assert_eq!(v.valid(vec!["a".to_string(), "".to_string()]), Err("empty variable name".to_string()));
    assert_eq!(v.valid(vec!["b".to_string()]), Err("missing variable: b".to_string()));
    assert!(v.get("b".to_string()).is_none());
    v.set("a".to_string(), Value::Int(2));
    assert_eq!(v.get("a".to_string()).unwrap().as_i64(), Some(2));
    assert_eq!(v.map.len(), 1);
}

#[test]
fn query_strings() {
    let mut inner = Object::new();
    inner.insert("k".to_string(), Value::Bool(false));
    let mut o = Object::new();
    o.insert("a".to_string(), Value::Array(vec![Value::Int(1), Value::String("x".to_string())]));
    o.insert("n".to_string(), Value::Object(inner));
    o.insert("z".to_string(), Value::Null);
    assert_eq!(o.to_query_string(), "a=1,x&n=k=false&z=");
    assert_eq!(Value::Float("0.5".to_string()).to_query_string(), "0.5");
}
