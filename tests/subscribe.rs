use pnwkit::config::Config;
use pnwkit::kit::Kit;
use pnwkit::request::{ContentType, Method};
use pnwkit::subscribe::{read_auth, read_channel, subscribe_frame, Report, Step, SubscribeFlow};
use pnwkit::subscription::{Subscription, SubscriptionEvent, SubscriptionModel};
use pnwkit::value::{Object, Value};

fn obj(pairs: Vec<(&str, Value)>) -> Value {
    let mut o = Object::new();
    for (k, v) in pairs {
        o.insert(k.to_string(), v);
    }
    Value::Object(o)
}

fn s(t: &str) -> Value {
    Value::String(t.to_string())
}

#[test]
fn subscription_happy_path() {
    let kit = Kit::new(Config::new());
    let req = kit.channel_request(SubscriptionModel::Nation, SubscriptionEvent::Create, &Object::new());
    assert_eq!(req.method, Method::Get);
    assert_eq!(req.url, "https://api.politicsandwar.com/subscriptions/v1/subscribe/nation/create");
    let (mut flow, step) = SubscribeFlow::start();
    assert!(matches!(step, Step::RequestChannel));
    let channel = read_channel(Ok(obj(vec![("channel", s("c1"))])));
    assert_eq!(channel, Ok("c1".to_string()));
    assert!(matches!(flow.advance(Report::Channel(channel)), Step::EnsureConnected));
    match flow.advance(Report::Connected(Ok(()))) {
        Step::Authorize(c) => {
            assert_eq!(c, "c1");
            let auth_req = kit.auth_request("sid", &c);
            assert_eq!(auth_req.method, Method::Post);
            assert_eq!(auth_req.content_type, Some(ContentType::Form));
            assert_eq!(auth_req.body.unwrap(), "socket_id=sid&channel_name=c1");
        },
        _ => panic!("expected authorization"),
    }
    let auth = read_auth(200, Ok(obj(vec![("auth", s("a"))])));
    match flow.advance(Report::Authorized(auth)) {
        Step::RegisterAndSend(c, frame) => {
            assert_eq!(c, "c1");
            assert_eq!(frame, "{\"event\":\"pusher:subscribe\",\"data\":{\"channel\":\"c1\",\"auth\":\"a\"}}");
        },
        _ => panic!("expected the subscribe frame"),
    }
    match flow.advance(Report::Sent(Ok(()))) {
        Step::AwaitConfirmation(secs) => assert_eq!(secs, 60),
        _ => panic!("expected to wait for confirmation"),
    }
    match flow.advance(Report::Confirmed(true)) {
        Step::Finish(r) => assert_eq!(r, Ok("c1".to_string())),
        _ => panic!("expected the end"),
    }
}

#[test]
fn unauthorized_asks_for_a_new_channel_once() {
    let (mut flow, _) = SubscribeFlow::start();
    flow.advance(Report::Channel(Ok("c1".to_string())));
    flow.advance(Report::Connected(Ok(())));
    assert_eq!(read_auth(403, Ok(Value::Null)), Err("unauthorized".to_string()));
    assert!(matches!(flow.advance(Report::Authorized(Err("unauthorized".to_string()))), Step::RequestChannel));
    match flow.advance(Report::Channel(Ok("c2".to_string()))) {
        Step::Authorize(c) => assert_eq!(c, "c2"),
        _ => panic!("expected authorization of the new channel"),
    }
    match flow.advance(Report::Authorized(Err("unauthorized".to_string()))) {
        Step::Finish(r) => assert_eq!(r, Err("unauthorized".to_string())),
        _ => panic!("expected failure"),
    }
}

#[test]
fn confirmation_timeout_abandons() {
    let (mut flow, step) = SubscribeFlow::resume("c9".to_string());
    assert!(matches!(step, Step::Authorize(_)));
    flow.advance(Report::Authorized(Ok("x".to_string())));
    flow.advance(Report::Sent(Ok(())));
    match flow.advance(Report::Confirmed(false)) {
        Step::Abandon(c, m) => {
            assert_eq!(c, "c9");
            assert_eq!(m, "timed out waiting for subscription to succeed");
        },
        _ => panic!("expected abandonment"),
    }
}

#[test]
fn out_of_order_report_fails() {
    let (mut flow, _) = SubscribeFlow::start();
    match flow.advance(Report::Sent(Ok(()))) {
        Step::Finish(r) => assert_eq!(r, Err("report out of order".to_string())),
        _ => panic!("expected failure"),
    }
}

#[test]
fn channel_answers_are_read() {
    assert_eq!(read_channel(Ok(obj(vec![("error", s("nope"))]))), Err("nope".to_string()));
    assert_eq!(read_channel(Ok(obj(vec![]))), Err("malformed response".to_string()));
    assert_eq!(read_channel(Err("bad json".to_string())), Err("bad json".to_string()));
    assert_eq!(read_auth(200, Ok(obj(vec![]))), Err("malformed response".to_string()));
}

#[test]
fn filters_go_into_the_query_string() {
    let kit = Kit::new(Config::new().set_subscribe_url("https://x/{model}/{event}/{model}".to_string()));
    let mut filters = Object::new();
    filters.insert("id".to_string(), Value::Array(vec![Value::Int(1), Value::Int(2)]));
    filters.insert("name".to_string(), s("a b&c"));
    let req = kit.channel_request(SubscriptionModel::WarAttack, SubscriptionEvent::Update, &filters);
    assert_eq!(req.url, "https://x/warattack/update/warattack?id=1%2C2&name=a+b%26c");
}

#[test]
fn model_and_event_tokens() {
    assert_eq!(SubscriptionModel::AlliancePosition.to_string(), "alliance_position");
    assert_eq!(SubscriptionModel::BBGame.to_string(), "bbgame");
    assert_eq!(SubscriptionModel::TaxBracket.to_string(), "tax_bracket");
    assert_eq!(SubscriptionModel::TreasureTrade.to_string(), "treasure_trade");
    assert_eq!(SubscriptionEvent::Delete.to_string(), "delete");
    assert_eq!(subscribe_frame("c", "a\""), "{\"event\":\"pusher:subscribe\",\"data\":{\"channel\":\"c\",\"auth\":\"a\\\"\"}}");
}

#[test]
fn subscription_queue_is_fifo() {
    let mut sub = Subscription::new(SubscriptionModel::Nation, SubscriptionEvent::Create, Object::new(), "c1".to_string());
    assert!(!sub.succeeded.is_set());
    assert!(sub.next().is_none());
    let mut a = Object::new();
    a.insert("id".to_string(), Value::Int(1));
    sub.push(a);
    let mut b = Object::new();
    b.insert("id".to_string(), Value::Int(2));
    let mut c = Object::new();
    c.insert("id".to_string(), Value::Int(3));
    sub.extend(vec![b, c]);
    for want in 1..=3 {
        assert_eq!(sub.next().unwrap().get("id").unwrap().as_i64(), Some(want));
    }
    sub.set_channel("c2".to_string());
    assert_eq!(sub.channel, "c2");
}
