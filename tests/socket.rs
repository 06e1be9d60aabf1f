use pnwkit::registry::Registry;
use pnwkit::socket::{data_text, ping_frame, Closing, Heartbeat, Inbound, SocketState};
use pnwkit::subscription::{Subscription, SubscriptionEvent, SubscriptionModel};
use pnwkit::value::{Object, Value};

fn obj(pairs: Vec<(&str, Value)>) -> Value {
    let mut o = Object::new();
    for (k, v) in pairs {
        o.insert(k.to_string(), v);
    }
    Value::Object(o)
}

fn s(t: &str) -> Value {
    Value::String(t.to_string())
}

/// Decodes JSON into a library value, as the driver does.
fn decode(text: &str) -> Value {
    fn conv(v: &serde_json::Value) -> Value {
        match v {
            serde_json::Value::Null => Value::Null,
            serde_json::Value::Bool(b) => Value::Bool(*b),
            serde_json::Value::Number(n) => match n.as_i64() {
                Some(i) => Value::Int(i),
                None => Value::Float(n.as_f64().unwrap().to_string()),
            },
            serde_json::Value::String(t) => Value::String(t.clone()),
            serde_json::Value::Array(a) => Value::Array(a.iter().map(conv).collect()),
            serde_json::Value::Object(m) => {
                let mut o = Object::new();
                for (k, x) in m {
                    o.insert(k.clone(), conv(x));
                }
                Value::Object(o)
            },
        }
    }
    conv(&serde_json::from_str::<serde_json::Value>(text).unwrap())
}

fn feed(state: &mut SocketState, text: &str, now: u64) -> Inbound {
    let frame = decode(text);
    let inner = data_text(&frame).map(decode);
    state.on_text(frame, inner, now)
}

fn established_socket() -> SocketState {
    let mut st = SocketState::new();
    st.begin_connect();
    st.connect_succeeded();
    let r = feed(
        &mut st,
        "{\"event\":\"pusher:connection_established\",\"data\":\"{\\\"socket_id\\\":\\\"sid\\\",\\\"activity_timeout\\\":30}\"}",
        10,
    );
    assert!(matches!(r, Inbound::Established));
    st
}

#[test]
fn connection_established_stores_id_and_timeout() {
    let st = established_socket();
    assert!(st.established.is_set());
    assert_eq!(st.socket_id.as_deref(), Some("sid"));
    assert_eq!(st.activity_timeout, 30);
    assert_eq!(st.last_message, Some(10));
}

#[test]
fn event_delivery_reaches_subscription() {
    let mut st = established_socket();
    let mut registry: Registry<Subscription> = Registry::new();
    registry.register(
        "c1".to_string(),
        Subscription::new(SubscriptionModel::Nation, SubscriptionEvent::Create, Object::new(), "c1".to_string()),
    );
    match feed(&mut st, "{\"event\":\"pusher_internal:subscription_succeeded\",\"channel\":\"c1\",\"data\":{}}", 11) {
        Inbound::Confirmed(c) => assert_eq!(c, "c1"),
        _ => panic!("expected confirmation"),
    }
    match feed(&mut st, "{\"event\":\"create\",\"channel\":\"c1\",\"data\":\"{\\\"id\\\":5}\"}", 12) {
        Inbound::Deliver(c, objs) => {
            assert_eq!(c, "c1");
            let sub = registry.remove(&c).unwrap();
            let mut sub = sub;
            sub.extend(objs);
            let got = sub.next().unwrap();
            assert_eq!(got.get("id").unwrap().as_i64(), Some(5));
            assert!(sub.next().is_none());
        },
        _ => panic!("expected delivery"),
    }
}

#[test]
fn bulk_delivery_extends_in_order() {
    let mut st = established_socket();
    match feed(&mut st, "{\"event\":\"BULK_create\",\"channel\":\"c1\",\"data\":\"[{\\\"id\\\":1},{\\\"id\\\":2}]\"}", 12) {
        Inbound::Deliver(c, objs) => {
            assert_eq!(c, "c1");
            let mut sub = Subscription::new(SubscriptionModel::Nation, SubscriptionEvent::Create, Object::new(), c);
            sub.extend(objs);
            assert_eq!(sub.next().unwrap().get("id").unwrap().as_i64(), Some(1));
            assert_eq!(sub.next().unwrap().get("id").unwrap().as_i64(), Some(2));
            assert!(sub.next().is_none());
        },
        _ => panic!("expected delivery"),
    }
    assert!(matches!(feed(&mut st, "{\"event\":\"BULK_create\",\"channel\":\"c1\",\"data\":[1]}", 13), Inbound::Ignored));
}

#[test]
fn ping_and_pong_frames() {
    let mut st = established_socket();
    match feed(&mut st, "{\"event\":\"pusher:ping\",\"data\":{}}", 20) {
        Inbound::ReplyPong(f) => assert_eq!(f, "{\"event\":\"pusher:pong\",\"data\":{}}"),
        _ => panic!("expected a pong reply"),
    }
    assert_eq!(st.ping_sent(true), 30);
    assert!(st.pinged && !st.ponged);
    assert!(matches!(feed(&mut st, "{\"event\":\"pusher:pong\",\"data\":{}}", 21), Inbound::Ponged));
    assert!(st.ponged && !st.pinged);
    assert!(!st.pong_deadline());
    assert_eq!(ping_frame(), "{\"event\":\"pusher:ping\",\"data\":{}}");
}

#[test]
fn missing_pong_gives_up_the_connection() {
    let mut st = established_socket();
    assert_eq!(st.ping_sent(false), 2);
    assert!(!st.pinged);
    st.ping_sent(true);
    assert!(st.pong_deadline());
    assert!(!st.established.is_set());
    assert!(st.send_allowed().is_err());
    st.connect_succeeded();
    st.reconnected();
    assert!(st.ponged && !st.pinged);
}

#[test]
fn heartbeat_schedule() {
    let mut st = SocketState::new();
    assert_eq!(st.heartbeat(100), Heartbeat::Sleep(120));
    st.last_message = Some(100);
    assert_eq!(st.heartbeat(150), Heartbeat::Sleep(70));
    assert_eq!(st.heartbeat(220), Heartbeat::SendPing);
    st.pinged = true;
    assert_eq!(st.heartbeat(230), Heartbeat::Sleep(2));
}

#[test]
fn close_codes() {
    let mut st = established_socket();
    match st.on_close(Some(4001)) {
        Closing::Fatal(m) => assert_eq!(m, "socket closed with code 4001"),
        _ => panic!("expected fatal"),
    }
    assert!(!st.established.is_set());
    assert!(st.send_allowed().is_err());
    assert!(matches!(st.on_close(Some(4100)), Closing::ReconnectAfter(1)));
    assert!(matches!(st.on_close(Some(4199)), Closing::ReconnectAfter(1)));
    assert!(matches!(st.on_close(Some(4200)), Closing::ReconnectAfter(0)));
    assert!(matches!(st.on_close(Some(1000)), Closing::ReconnectAfter(0)));
    match st.on_close(None) {
        Closing::Fatal(m) => assert_eq!(m, "socket closed without code"),
        _ => panic!("expected fatal"),
    }
}

#[test]
fn disconnected_socket_refuses_sends() {
    let mut st = SocketState::new();
    assert_eq!(st.send_allowed(), Err("not connected".to_string()));
    assert!(st.needs_connect());
    st.begin_connect();
    assert!(!st.needs_connect());
    assert!(st.send_allowed().is_err());
    st.connect_failed();
    assert!(st.needs_connect());
    st.begin_connect();
    st.connect_succeeded();
    assert_eq!(st.send_allowed(), Ok(()));
}

#[test]
fn malformed_frames_are_ignored() {
    let mut st = SocketState::new();
    assert!(matches!(feed(&mut st, "[1,2]", 5), Inbound::Ignored));
    assert!(matches!(
        feed(&mut st, "{\"event\":\"pusher:connection_established\",\"data\":{\"socket_id\":\"\",\"activity_timeout\":5}}", 6),
        Inbound::Ignored
    ));
    assert!(!st.established.is_set());
    assert_eq!(st.last_message, Some(6));
    assert!(matches!(feed(&mut st, "{\"event\":\"create\",\"data\":{}}", 7), Inbound::Ignored));
}
