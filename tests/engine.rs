use pnwkit::config::Config;
use pnwkit::field::field;
use pnwkit::kit::{parse_response, Attempt, GetFlow, Kit, Next};
use pnwkit::query::{Query, QueryType};
use pnwkit::rate_limiter::RateLimiter;
use pnwkit::request::{ContentType, Method};
use pnwkit::value::{variable, Object, Value, VariableType};
use pnwkit::variable::Variables;

fn obj(pairs: Vec<(&str, Value)>) -> Value {
    let mut o = Object::new();
    for (k, v) in pairs {
        o.insert(k.to_string(), v);
    }
    Value::Object(o)
}

#[test]
fn build_request_body_and_headers() {
    let kit = Kit::new(Config::new().set_api_key("k".to_string()).update_headers());
    let q = kit.query().field(field("nations").add_field_leaf("id"));
    let mut vars = Variables::new();
    let req = kit.build_request(&q, &mut vars, false).unwrap();
    assert_eq!(req.method, Method::Post);
    assert_eq!(req.url, "https://api.politicsandwar.com/graphql");
    assert_eq!(req.content_type, Some(ContentType::Json));
    assert_eq!(
        req.body.unwrap(),
        "{\"query\":\"query { nations{__typename id} }\",\"variables\":{\"__page\":1}}"
    );
    assert_eq!(req.headers.unwrap().authorization, "Bearer k");
    assert_eq!(vars.get("__page".to_string()).unwrap().as_i64(), Some(1));
}

#[test]
fn build_request_refuses_invalid_input() {
    let kit = Kit::new(Config::new());
    let mut vars = Variables::new();
    let empty = Query::new(QueryType::Query);
    assert_eq!(kit.build_request(&empty, &mut vars, true).unwrap_err(), "Invalid query: no fields");
    let q = Query::new(QueryType::Query)
        .field(field("a").set_argument("id".to_string(), Value::from(variable("id", VariableType::Int))));
    assert_eq!(kit.build_request(&q, &mut vars, true).unwrap_err(), "Invalid variables: missing variable: id");
    assert_eq!(vars.map.len(), 0);
    vars.set("id".to_string(), Value::Int(4));
    let req = kit.build_request(&q, &mut vars, true).unwrap();
    assert_eq!(
        req.body.unwrap(),
        "{\"query\":\"query($id: Int) { a(id: $id){__typename } }\",\"variables\":{\"id\":4,\"__page\":1}}"
    );
}

#[test]
fn envelope_with_data_succeeds() {
    let decoded = obj(vec![(
        "data",
        obj(vec![("nations", Value::Array(vec![obj(vec![("id", Value::String("1".to_string()))])]))]),
    )]);
    let data = parse_response(Ok(decoded)).unwrap();
    let nations = data.get("nations").unwrap().as_array().unwrap();
    assert_eq!(nations.len(), 1);
    assert_eq!(nations[0].as_object().unwrap().get("id").unwrap().as_str(), Some("1"));
}

#[test]
fn envelope_errors_are_joined() {
    let decoded = obj(vec![
        (
            "errors",
            Value::Array(vec![
                obj(vec![("message", Value::String("bad".to_string()))]),
                obj(vec![("message", Value::String("worse".to_string()))]),
            ]),
        ),
        ("data", obj(vec![])),
    ]);
    assert_eq!(parse_response(Ok(decoded)).unwrap_err(), "bad, worse");
    let no_data = obj(vec![("errors", Value::Array(vec![]))]);
    assert_eq!(parse_response(Ok(no_data)).unwrap_err(), "No data");
    assert_eq!(parse_response(Ok(Value::Int(1))).unwrap_err(), "malformed response");
    assert_eq!(parse_response(Err("eof".to_string())).unwrap_err(), "eof");
}

#[test]
fn too_many_requests_is_retried_then_given_up() {
    let mut flow = GetFlow::new();
    let mut limiter = RateLimiter::new();
    let now = 1000;
    let mut sleeps = Vec::new();
    loop {
        assert!(flow.can_attempt());
        let attempt = Attempt::Answered(429, Some(1030), Err("not json".to_string()));
        match flow.step(attempt, &mut limiter, now) {
            Next::Retry(s) => sleeps.push(s),
            Next::Finish(r) => {
                assert_eq!(r.unwrap_err(), "Max retries exceeded: Too many requests");
                break;
            },
        }
    }
    assert_eq!(sleeps, vec![30, 30, 30]);
    assert_eq!(flow.attempts, 4);
    assert!(!flow.can_attempt());
    assert_eq!(limiter.remaining, 0);
    assert_eq!(limiter.reset, 1030);
}

#[test]
fn transport_errors_are_retried() {
    let mut flow = GetFlow::new();
    let mut limiter = RateLimiter::new();
    for _ in 0..3 {
        match flow.step(Attempt::Failed("down".to_string()), &mut limiter, 5) {
            Next::Retry(s) => assert_eq!(s, 0),
            Next::Finish(_) => panic!("gave up early"),
        }
    }
    match flow.step(Attempt::Failed("down".to_string()), &mut limiter, 5) {
        Next::Finish(r) => assert_eq!(r.unwrap_err(), "Max retries exceeded: down"),
        Next::Retry(_) => panic!("retried a fifth time"),
    }
}

#[test]
fn answer_finishes_the_flow() {
    let mut flow = GetFlow::new();
    let mut limiter = RateLimiter::new();
    let body = obj(vec![("data", obj(vec![("x", Value::Int(1))]))]);
    match flow.step(Attempt::Answered(200, None, Ok(body)), &mut limiter, 5) {
        Next::Finish(r) => assert_eq!(r.unwrap().get("x").unwrap().as_i64(), Some(1)),
        Next::Retry(_) => panic!("retried a success"),
    }
}

#[test]
fn rate_limiter_hits() {
    let mut r = RateLimiter::new();
    assert_eq!(r.hit(100), 0);
    assert!(!r.initialized());
    r.initialize(3, 2, 110, 60);
    assert!(r.initialized());
    assert_eq!(r.hit(100), 0);
    assert_eq!(r.remaining, 1);
    assert_eq!(r.hit(101), 0);
    assert_eq!(r.remaining, 0);
    assert_eq!(r.hit(102), 9);
    assert_eq!(r.remaining, 0);
    assert_eq!(r.hit(111), 0);
    assert_eq!(r.remaining, 2);
    assert_eq!(r.reset, 111 + 1 + 60);
}

#[test]
fn rate_limiter_handles_429() {
    let mut r = RateLimiter::new();
    assert_eq!(r.handle_429(None, 100), 60);
    assert_eq!(r.reset, 160);
    let mut r = RateLimiter::new();
    r.initialize(10, 5, 150, 90);
    assert_eq!(r.handle_429(None, 100), 50);
    assert_eq!(r.remaining, 0);
    assert_eq!(r.handle_429(Some(130), 100), 30);
    assert_eq!(r.handle_429(Some(90), 100), 0);
    let mut fresh = RateLimiter::new();
    fresh.interval = 90;
    assert_eq!(fresh.handle_429(None, 100), 90);
}
