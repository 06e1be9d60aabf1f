//! The facade: request building, reading the response envelope, and the
//! retry policy of the request engine.
use vstd::prelude::*;
use crate::config::Config;
use crate::data::Error;
use crate::json::members_json;
use crate::query::{Query, QueryType, names_valid, top_vars};
use crate::rate_limiter::{RateLimiter, reset_after_429, sat};
use crate::request::{ContentType, Method, Request};
use crate::resolve::query_text;
use crate::text::{json_quoted, quote_json};
use crate::value::{Object, Value, Variable, lookup};
use crate::variable::{Variables, name_ok, page_init_spec};

verus! {

/// The number of attempts that the engine makes before it gives up.
pub const MAX_ATTEMPTS: u32 = 4;

/// The facade: the configuration that requests are built from.
#[derive(Debug, Clone)]
pub struct Kit {
    pub config: Config,
}

/// The body of a GraphQL request: the document and the variables.
pub open spec fn request_body(document: Seq<char>, vars: Seq<(String, Value)>) -> Seq<char> {
    "{\"query\":"@ + json_quoted(document) + ",\"variables\":"@ + ("{"@ + members_json(vars) + "}"@) + "}"@
}

/// Every variable that the document refers to is bound, under a non-empty
/// name.
pub open spec fn vars_cover(q: Query, vars: Seq<(Seq<char>, Value)>) -> bool {
    forall|i: int| 0 <= i < top_vars(q.fields@).len() ==> name_ok(vars, #[trigger] top_vars(q.fields@)[i].name@)
}

fn names_of(vars: &Vec<Variable>) -> (r: Vec<String>)
    ensures
        r@.len() == vars@.len(),
        forall|i: int| 0 <= i < vars@.len() ==> (#[trigger] r@[i])@ == vars@[i].name@,
{
    let mut out: Vec<String> = Vec::new();
    let mut i: usize = 0;
    while i < vars.len()
        invariant
            i <= vars@.len(),
            out@.len() == i,
            forall|j: int| 0 <= j < i ==> (#[trigger] out@[j])@ == vars@[j].name@,
        decreases vars@.len() - i,
    {
        out.push(vars[i].name.clone());
        i = i + 1;
    }
    out
}

impl Kit {
    pub fn new(config: Config) -> (r: Kit)
        ensures
            r.config == config,
    {
        Kit { config }
    }

    /// An empty query document.
    pub fn query(&self) -> (r: Query)
        ensures
            r.query_type == QueryType::Query,
            r.fields@.len() == 0,
            r.wf(),
    {
        Query::new(QueryType::Query)
    }

    /// An empty mutation document.
    pub fn mutation(&self) -> (r: Query)
        ensures
            r.query_type == QueryType::Mutation,
            r.fields@.len() == 0,
            r.wf(),
    {
        Query::new(QueryType::Mutation)
    }

    /// The request for a document: refused when the document is invalid, or
    /// when given variables leave one that it names unbound. The variables
    /// (an empty set when none are given) get `__page = 1` where it is
    /// unbound, and travel in the body with the document.
    pub fn build_request(&self, query: &Query, variables: &mut Variables, check_variables: bool) -> (r: Result<Request, String>)
        requires
            old(variables).wf(),
        ensures
            !(query.fields@.len() > 0 && names_valid(query.fields@)) ==> (r matches Err(m)
                && m@.subrange(0, 15) == "Invalid query: "@),
            query.fields@.len() > 0 && names_valid(query.fields@) && check_variables
                && !vars_cover(*query, old(variables)@) ==> (r matches Err(m)
                && m@.subrange(0, 19) == "Invalid variables: "@),
            r is Ok == (query.fields@.len() > 0 && names_valid(query.fields@)
                && (check_variables ==> vars_cover(*query, old(variables)@))),
            r is Err ==> *final(variables) == *old(variables),
            r matches Ok(req) ==> {
                &&& final(variables)@ == page_init_spec(old(variables)@)
                &&& final(variables).wf()
                &&& req.method == Method::Post
                &&& req.url == self.config.api_url
                &&& req.body matches Some(b) && b@ == request_body(query_text(*query), final(variables).map.entries@)
                &&& req.headers == Some(self.config.headers)
                &&& req.content_type == Some(ContentType::Json)
            },
    {
        match query.valid() {
            Err(m) => {
                let mut msg = String::from_str("Invalid query: ");
                msg.append(m.as_str());
                proof {
                    reveal_strlit("Invalid query: ");
                    assert(msg@.subrange(0, 15) =~= "Invalid query: "@);
                }
                return Err(msg);
            },
            Ok(()) => {},
        }
        if check_variables {
            let vars = query.get_variables();
            let names = names_of(&vars);
            match variables.valid(names) {
                Err(m) => {
                    let mut msg = String::from_str("Invalid variables: ");
                    msg.append(m.as_str());
                    proof {
                        reveal_strlit("Invalid variables: ");
                        assert(msg@.subrange(0, 19) =~= "Invalid variables: "@);
                        assert(!vars_cover(*query, variables@)) by {
                            let i = choose|i: int| 0 <= i < names@.len() && !name_ok(variables@, names@[i]@);
                            assert(names@[i]@ == top_vars(query.fields@)[i].name@);
                        }
                    }
                    return Err(msg);
                },
                Ok(()) => {
                    assert(vars_cover(*query, variables@)) by {
                        assert forall|i: int| 0 <= i < top_vars(query.fields@).len() implies name_ok(variables@, #[trigger] top_vars(query.fields@)[i].name@) by {
                            assert(names@[i]@ == top_vars(query.fields@)[i].name@);
                        }
                    }
                },
            }
        }
        variables.page_init();
        let document = query.resolve();
        let mut body = String::from_str("{\"query\":");
        let q = quote_json(document.as_str());
        body.append(q.as_str());
        body.append(",\"variables\":");
        let v = variables.to_json();
        body.append(v.as_str());
        body.append("}");
        Ok(Request::new(
            Method::Post,
            self.config.api_url.clone(),
            Some(body),
            Some(self.config.headers.duplicate()),
            Some(ContentType::Json),
        ))
    }
}

/// The message of one GraphQL error: its `message` text, else empty.
pub open spec fn error_message(v: Value) -> Seq<char> {
    match v {
        Value::Object(o) => match lookup(o@, "message"@) {
            Some(Value::String(m)) => m@,
            _ => Seq::empty(),
        },
        _ => Seq::empty(),
    }
}

/// The messages of a list of errors, separated by `, `.
pub open spec fn messages_text(s: Seq<Value>) -> Seq<char>
    decreases s.len(),
{
    if s.len() == 0 {
        Seq::empty()
    } else if s.len() == 1 {
        error_message(s[0])
    } else {
        messages_text(s.drop_last()) + ", "@ + error_message(s.last())
    }
}

/// The envelope reports at least one error.
pub open spec fn has_errors(o: Seq<(Seq<char>, Value)>) -> bool {
    lookup(o, "errors"@) matches Some(Value::Array(a)) && a@.len() > 0
}

/// What a decoded response envelope yields: the decoder's error; the joined
/// messages when errors are reported; else the `data` object, or
/// "No data" where there is none.
pub open spec fn envelope(decoded: Result<Value, String>) -> Result<Object, Seq<char>> {
    match decoded {
        Err(e) => Err(e@),
        Ok(Value::Object(o)) => if has_errors(o@) {
            Err(messages_text(lookup(o@, "errors"@)->0->Array_0@))
        } else {
            match lookup(o@, "data"@) {
                Some(Value::Object(d)) => Ok(d),
                _ => Err("No data"@),
            }
        },
        Ok(_) => Err("malformed response"@),
    }
}

/// An envelope yields its data only when it reports no error: a success
/// and an error are never both surfaced.
pub proof fn lemma_success_excludes_errors(decoded: Result<Value, String>)
    ensures
        envelope(decoded) is Ok ==> (decoded matches Ok(Value::Object(o)) && !has_errors(o@)
            && (lookup(o@, "data"@) matches Some(Value::Object(d)) && envelope(decoded) == Ok::<Object, Seq<char>>(d))),
        (decoded matches Ok(Value::Object(o)) && has_errors(o@)) ==> envelope(decoded) is Err,
{
}

/// A result with a text error agrees with one over character sequences.
pub open spec fn agrees(r: Result<Object, String>, s: Result<Object, Seq<char>>) -> bool {
    match r {
        Ok(d) => s == Ok::<Object, Seq<char>>(d),
        Err(m) => s == Err::<Object, Seq<char>>(m@),
    }
}

fn join_messages(items: &Vec<Value>) -> (r: String)
    ensures
        r@ == messages_text(items@),
{
    let mut out = String::new();
    let mut i: usize = 0;
    while i < items.len()
        invariant
            i <= items@.len(),
            out@ == messages_text(items@.subrange(0, i as int)),
        decreases items@.len() - i,
    {
        let ghost prev = out@;
        if i > 0 {
            out.append(", ");
        }
        let e = Error::from_value(&items[i]);
        out.append(e.message.as_str());
        proof {
            let sub = items@.subrange(0, i + 1);
            assert(sub.drop_last() =~= items@.subrange(0, i as int));
            if i == 0 {
                assert(out@ =~= error_message(items@[0]));
            } else {
                assert(out@ =~= prev + ", "@ + error_message(items@[i as int]));
            }
        }
        i = i + 1;
    }
    assert(items@.subrange(0, i as int) =~= items@);
    out
}

/// Reads a decoded response envelope. A success carries the `data` object
/// and comes only where no error is reported.
pub fn parse_response(decoded: Result<Value, String>) -> (r: Result<Object, String>)
    ensures
        agrees(r, envelope(decoded)),
        r is Ok ==> (decoded matches Ok(Value::Object(o)) && !has_errors(o@)),
{
    match decoded {
        Err(e) => Err(e),
        Ok(Value::Object(mut o)) => {
            match o.get("errors") {
                Some(Value::Array(items)) => {
                    if items.len() > 0 {
                        return Err(join_messages(items));
                    }
                },
                _ => {},
            }
            match o.remove("data") {
                Some(Value::Object(d)) => Ok(d),
                _ => Err(String::from_str("No data")),
            }
        },
        Ok(_) => Err(String::from_str("malformed response")),
    }
}

/// What one attempt of the engine came to.
#[derive(Debug)]
pub enum Attempt {
    /// The transport failed, with its message.
    Failed(String),
    /// An answer: its status, its `X-Ratelimit-Reset` header, and its body
    /// decoded as JSON (or the decoder's message).
    Answered(u16, Option<u64>, Result<Value, String>),
}

/// What the engine does next.
#[derive(Debug)]
pub enum Next {
    /// Sleep this many seconds, then make another attempt.
    Retry(u64),
    /// Stop with this result.
    Finish(Result<Object, String>),
}

/// The retry policy of the request engine: up to four attempts; transport
/// errors and "too many requests" answers are retried, anything else ends it.
#[derive(Debug)]
pub struct GetFlow {
    pub attempts: u32,
    pub last_error: String,
}

/// The error with which the engine gives up.
pub open spec fn exhausted(last: Seq<char>) -> Seq<char> {
    "Max retries exceeded: "@ + last
}

fn exhausted_message(last: &str) -> (r: String)
    ensures
        r@ == exhausted(last@),
{
    let mut m = String::from_str("Max retries exceeded: ");
    m.append(last);
    m
}

impl GetFlow {
    /// No attempt made yet.
    pub fn new() -> (r: GetFlow)
        ensures
            r.attempts == 0,
    {
        GetFlow { attempts: 0, last_error: String::from_str("Something went very wrong") }
    }

    /// Whether another attempt may be made.
    pub fn can_attempt(&self) -> (r: bool)
        ensures
            r == (self.attempts < MAX_ATTEMPTS),
    {
        self.attempts < MAX_ATTEMPTS
    }

    /// Takes the outcome of an attempt made at time `now`, and decides what
    /// follows. A "too many requests" answer is recorded in the limiter, and
    /// the retry waits until its reset epoch.
    pub fn step(&mut self, attempt: Attempt, limiter: &mut RateLimiter, now: u64) -> (next: Next)
        requires
            old(self).attempts < MAX_ATTEMPTS,
        ensures
            final(self).attempts == old(self).attempts + 1,
            match attempt {
                Attempt::Failed(e) => {
                    &&& final(self).last_error@ == e@
                    &&& *final(limiter) == *old(limiter)
                    &&& if final(self).attempts < MAX_ATTEMPTS {
                        next == Next::Retry(0)
                    } else {
                        next matches Next::Finish(Err(m)) && m@ == exhausted(e@)
                    }
                },
                Attempt::Answered(status, reset, body) => if status == 429 {
                    &&& final(self).last_error@ == "Too many requests"@
                    &&& final(limiter).remaining == 0
                    &&& final(limiter).reset == reset_after_429(*old(limiter), reset, now)
                    &&& final(limiter).limit == old(limiter).limit
                    &&& final(limiter).interval == old(limiter).interval
                    &&& final(limiter).init == old(limiter).init
                    &&& if final(self).attempts < MAX_ATTEMPTS {
                        next == Next::Retry(sat(final(limiter).reset - now))
                    } else {
                        next matches Next::Finish(Err(m)) && m@ == exhausted("Too many requests"@)
                    }
                } else {
                    &&& *final(limiter) == *old(limiter)
                    &&& next matches Next::Finish(res) && agrees(res, envelope(body))
                },
            },
    {
        self.attempts = self.attempts + 1;
        match attempt {
            Attempt::Failed(e) => {
                self.last_error = e;
                if self.attempts < MAX_ATTEMPTS {
                    Next::Retry(0)
                } else {
                    Next::Finish(Err(exhausted_message(self.last_error.as_str())))
                }
            },
            Attempt::Answered(status, reset, body) => {
                if status == 429 {
                    let wait = limiter.handle_429(reset, now);
                    self.last_error = String::from_str("Too many requests");
                    if self.attempts < MAX_ATTEMPTS {
                        Next::Retry(wait)
                    } else {
                        Next::Finish(Err(exhausted_message(self.last_error.as_str())))
                    }
                } else {
                    Next::Finish(parse_response(body))
                }
            },
        }
    }
}

} // verus!

verus! {

impl Kit {
    /// A paginator over one field, as a query.
    pub fn paginator(&self, field: crate::field::Field) -> (r: crate::paginator::Paginator)
        requires
            crate::field::field_wf(field),
        ensures
            r.wf(),
            r.query.query_type == QueryType::Query,
            r.query.fields@ == seq![field],
            r.paginator_info is None,
            r.queue@.len() == 0,
            r.variables@ == seq![("__page"@, Value::Int(0))],
    {
        let query = Query::new(QueryType::Query).field(field);
        assert(query.fields@ =~= seq![field]);
        crate::paginator::Paginator::new(query)
    }

    /// As `paginator`, with room for `capacity` items reserved.
    pub fn paginator_with_capacity(&self, field: crate::field::Field, capacity: u16) -> (r: crate::paginator::Paginator)
        requires
            crate::field::field_wf(field),
        ensures
            r.wf(),
            r.query.query_type == QueryType::Query,
            r.query.fields@ == seq![field],
            r.paginator_info is None,
            r.queue@.len() == 0,
            r.variables@ == seq![("__page"@, Value::Int(0))],
    {
        let query = Query::new(QueryType::Query).field(field);
        assert(query.fields@ =~= seq![field]);
        crate::paginator::Paginator::with_capacity(query, capacity)
    }

    /// As `paginator`, over the given variables.
    pub fn paginator_with_variables(&self, field: crate::field::Field, variables: Variables) -> (r: crate::paginator::Paginator)
        requires
            crate::field::field_wf(field),
            variables.wf(),
        ensures
            r.wf(),
            r.query.query_type == QueryType::Query,
            r.query.fields@ == seq![field],
            r.paginator_info is None,
            r.queue@.len() == 0,
            lookup(r.variables@, "__page"@) == Some(Value::Int(0)),
    {
        let query = Query::new(QueryType::Query).field(field);
        assert(query.fields@ =~= seq![field]);
        crate::paginator::Paginator::with_variables(query, variables)
    }

    /// As `paginator_with_variables`, with room for `capacity` items reserved.
    pub fn paginator_with_capacity_and_variables(
        &self,
        field: crate::field::Field,
        variables: Variables,
        capacity: u16,
    ) -> (r: crate::paginator::Paginator)
        requires
            crate::field::field_wf(field),
            variables.wf(),
        ensures
            r.wf(),
            r.query.query_type == QueryType::Query,
            r.query.fields@ == seq![field],
            r.paginator_info is None,
            r.queue@.len() == 0,
            lookup(r.variables@, "__page"@) == Some(Value::Int(0)),
    {
        let query = Query::new(QueryType::Query).field(field);
        assert(query.fields@ =~= seq![field]);
        crate::paginator::Paginator::with_capacity_and_variables(query, capacity, variables)
    }
}

} // verus!
