//! The subscribe protocol: the channel request, authorization, the frames
//! sent on the socket, and the decisions between those steps.
use vstd::prelude::*;
use crate::data::SubscriptionAuthData;
use crate::kit::Kit;
use crate::request::{ContentType, Method, Request};
use crate::subscription::{SubscriptionEvent, SubscriptionModel, event_text, model_text};
use crate::text::{form_pair, json_quoted, encode_form_pair, quote_json, replace_all, replaced};
use crate::to_query_string::value_qs;
use crate::value::{Object, Value, lookup};

verus! {

/// The filters of a subscription as a query string: each `key=value` pair
/// form-encoded, joined by `&`.
pub open spec fn filters_qs(s: Seq<(String, Value)>) -> Seq<char>
    decreases s.len(),
{
    if s.len() == 0 {
        Seq::empty()
    } else if s.len() == 1 {
        form_pair(s[0].0@, value_qs(s[0].1))
    } else {
        filters_qs(s.drop_last()) + "&"@ + form_pair(s.last().0@, value_qs(s.last().1))
    }
}

/// The subscribe URL: the template with `{model}` and `{event}` filled in,
/// followed by `?` and the filters where there are any.
pub open spec fn channel_url(template: Seq<char>, m: SubscriptionModel, e: SubscriptionEvent, filters: Object) -> Seq<char> {
    let base = replaced(replaced(template, "{model}"@, model_text(m)), "{event}"@, event_text(e));
    if filters@.len() == 0 { base } else { base + "?"@ + filters_qs(filters.entries@) }
}

/// The body of an authorization request.
pub open spec fn auth_body(socket_id: Seq<char>, channel: Seq<char>) -> Seq<char> {
    form_pair("socket_id"@, socket_id) + "&"@ + form_pair("channel_name"@, channel)
}

/// The frame that asks the server for a channel.
pub open spec fn subscribe_frame_text(channel: Seq<char>, auth: Seq<char>) -> Seq<char> {
    "{\"event\":\"pusher:subscribe\",\"data\":{\"channel\":"@ + json_quoted(channel)
        + ",\"auth\":"@ + json_quoted(auth) + "}}"@
}

fn encode_filters(a: &Vec<(String, Value)>) -> (r: String)
    ensures
        r@ == filters_qs(a@),
{
    let mut out = String::new();
    let mut i: usize = 0;
    while i < a.len()
        invariant
            i <= a@.len(),
            out@ == filters_qs(a@.subrange(0, i as int)),
        decreases a@.len() - i,
    {
        let v = a[i].1.query_string();
        let p = encode_form_pair(a[i].0.as_str(), v.as_str());
        let ghost prev = out@;
        if i > 0 {
            out.append("&");
        }
        out.append(p.as_str());
        proof {
            assert(a@.subrange(0, i + 1).drop_last() =~= a@.subrange(0, i as int));
            if i == 0 {
                assert(prev =~= Seq::<char>::empty());
                assert(out@ =~= p@);
            }
        }
        i = i + 1;
    }
    assert(a@.subrange(0, i as int) =~= a@);
    out
}

impl Kit {
    /// The request that asks for a channel for a subscription.
    pub fn channel_request(&self, model: SubscriptionModel, event: SubscriptionEvent, filters: &Object) -> (r: Request)
        ensures
            r.method == Method::Get,
            r.url@ == channel_url(self.config.subscribe_url@, model, event, *filters),
            r.body is None,
            r.headers == Some(self.config.headers),
            r.content_type == Some(ContentType::Json),
    {
        let m = model.to_string();
        let e = event.to_string();
        proof {
            reveal_strlit("{model}");
            reveal_strlit("{event}");
        }
        let with_model = replace_all(self.config.subscribe_url.as_str(), "{model}", m.as_str());
        let mut url = replace_all(with_model.as_str(), "{event}", e.as_str());
        if !filters.is_empty() {
            url.append("?");
            let q = encode_filters(&filters.entries);
            url.append(q.as_str());
        }
        Request::new(Method::Get, url, None, Some(self.config.headers.duplicate()), Some(ContentType::Json))
    }

    /// The request that authorizes socket `socket_id` on `channel`.
    pub fn auth_request(&self, socket_id: &str, channel: &str) -> (r: Request)
        ensures
            r.method == Method::Post,
            r.url == self.config.subscription_auth_url,
            r.body matches Some(b) && b@ == auth_body(socket_id@, channel@),
            r.headers is None,
            r.content_type == Some(ContentType::Form),
    {
        let mut body = encode_form_pair("socket_id", socket_id);
        body.append("&");
        let c = encode_form_pair("channel_name", channel);
        body.append(c.as_str());
        Request::new(Method::Post, self.config.subscription_auth_url.clone(), Some(body), None, Some(ContentType::Form))
    }
}

/// The text under `key` of a decoded object.
pub open spec fn text_field(v: Value, key: Seq<char>) -> Option<Seq<char>> {
    match v {
        Value::Object(o) => match lookup(o@, key) {
            Some(Value::String(s)) => Some(s@),
            _ => None,
        },
        _ => None,
    }
}

/// What a decoded channel answer yields: its `error` text, else its
/// `channel` text, else "malformed response".
pub open spec fn channel_outcome(decoded: Result<Value, String>) -> Result<Seq<char>, Seq<char>> {
    match decoded {
        Err(e) => Err(e@),
        Ok(v) => match text_field(v, "error"@) {
            Some(e) => Err(e),
            None => match text_field(v, "channel"@) {
                Some(c) => Ok(c),
                None => Err("malformed response"@),
            },
        },
    }
}

/// A text result agrees with one over character sequences.
pub open spec fn agrees_text(r: Result<String, String>, s: Result<Seq<char>, Seq<char>>) -> bool {
    match r {
        Ok(t) => s == Ok::<Seq<char>, Seq<char>>(t@),
        Err(m) => s == Err::<Seq<char>, Seq<char>>(m@),
    }
}

fn text_of(v: &Value, key: &str) -> (r: Option<String>)
    ensures
        r is Some == text_field(*v, key@) is Some,
        r matches Some(t) ==> text_field(*v, key@) == Some(t@),
{
    match v {
        Value::Object(o) => match o.get(key) {
            Some(Value::String(s)) => Some(s.clone()),
            _ => None,
        },
        _ => None,
    }
}

/// Reads the answer to a channel request, decoded as JSON.
pub fn read_channel(decoded: Result<Value, String>) -> (r: Result<String, String>)
    ensures
        agrees_text(r, channel_outcome(decoded)),
{
    match decoded {
        Err(e) => Err(e),
        Ok(v) => match text_of(&v, "error") {
            Some(e) => Err(e),
            None => match text_of(&v, "channel") {
                Some(c) => Ok(c),
                None => Err(String::from_str("malformed response")),
            },
        },
    }
}

/// What an authorization answer yields: "unauthorized" for any status but
/// 200, else its `auth` text, else "malformed response".
pub open spec fn auth_outcome(status: u16, decoded: Result<Value, String>) -> Result<Seq<char>, Seq<char>> {
    if status != 200 {
        Err("unauthorized"@)
    } else {
        match decoded {
            Err(e) => Err(e@),
            Ok(v) => match text_field(v, "auth"@) {
                Some(a) => Ok(a),
                None => Err("malformed response"@),
            },
        }
    }
}

/// Reads the answer to an authorization request.
pub fn read_auth(status: u16, decoded: Result<Value, String>) -> (r: Result<String, String>)
    ensures
        agrees_text(r, auth_outcome(status, decoded)),
{
    if status != 200 {
        return Err(String::from_str("unauthorized"));
    }
    match decoded {
        Err(e) => Err(e),
        Ok(v) => match SubscriptionAuthData::from_value(&v) {
            Some(a) => Ok(a.auth),
            None => Err(String::from_str("malformed response")),
        },
    }
}

/// The frame that subscribes to `channel` with its authorization.
pub fn subscribe_frame(channel: &str, auth: &str) -> (r: String)
    ensures
        r@ == subscribe_frame_text(channel@, auth@),
{
    let mut f = String::from_str("{\"event\":\"pusher:subscribe\",\"data\":{\"channel\":");
    let c = quote_json(channel);
    f.append(c.as_str());
    f.append(",\"auth\":");
    let a = quote_json(auth);
    f.append(a.as_str());
    f.append("}}");
    f
}

/// Where a subscription stands in the protocol.
#[derive(Debug, Clone, Copy, PartialEq, Eq, Structural)]
pub enum Stage {
    /// Waiting for the channel answer.
    Channel,
    /// Waiting for the socket to be connected.
    Connect,
    /// Waiting for the authorization answer.
    Authorize,
    /// Waiting for the subscribe frame to be sent.
    Send,
    /// Waiting for the server's confirmation.
    Confirm,
    /// Over.
    Done,
}

/// What the driver reports back.
#[derive(Debug)]
pub enum Report {
    /// The channel answer, read with `read_channel` (or the transport's error).
    Channel(Result<String, String>),
    /// Whether the socket is connected (or the error that prevented it).
    Connected(Result<(), String>),
    /// The authorization answer, read with `read_auth` (or the transport's error).
    Authorized(Result<String, String>),
    /// Whether the subscribe frame went out.
    Sent(Result<(), String>),
    /// Whether the confirmation came within the wait.
    Confirmed(bool),
}

/// What the driver does next.
#[derive(Debug)]
pub enum Step {
    /// Send the channel request and report the answer.
    RequestChannel,
    /// Connect the socket unless it is connected, and report.
    EnsureConnected,
    /// Wait until the socket is established, then send the authorization
    /// request for this channel and report the answer.
    Authorize(String),
    /// Register the subscription under this channel, send this frame, and
    /// report.
    RegisterAndSend(String, String),
    /// Wait this many seconds at most for the confirmation, and report.
    AwaitConfirmation(u64),
    /// Remove the subscription under this channel, and fail with this error.
    Abandon(String, String),
    /// The subscription stands on this channel, or failed with this error.
    Finish(Result<String, String>),
}

/// The seconds to wait for the server to confirm a subscription.
pub const CONFIRM_SECONDS: u64 = 60;

/// The decisions of the subscribe protocol for one subscription.
#[derive(Debug)]
pub struct SubscribeFlow {
    pub stage: Stage,
    pub channel: String,
    pub retried: bool,
}

impl SubscribeFlow {
    /// A new subscription: the first step asks for a channel.
    pub fn start() -> (r: (SubscribeFlow, Step))
        ensures
            r.0.stage == Stage::Channel,
            !r.0.retried,
            r.1 is RequestChannel,
    {
        (SubscribeFlow { stage: Stage::Channel, channel: String::new(), retried: false }, Step::RequestChannel)
    }

    /// An existing subscription on `channel`, driven again after a
    /// reconnection: the first step authorizes it.
    pub fn resume(channel: String) -> (r: (SubscribeFlow, Step))
        ensures
            r.0.stage == Stage::Authorize,
            r.0.channel == channel,
            !r.0.retried,
            r.1 matches Step::Authorize(c) && c == channel,
    {
        let c = channel.clone();
        (SubscribeFlow { stage: Stage::Authorize, channel, retried: false }, Step::Authorize(c))
    }

    /// The next step after a report. A report that does not fit the stage
    /// ends the flow with an error. An "unauthorized" answer asks for a
    /// channel once more, then authorizes that channel; a second refusal
    /// ends it.
    pub fn advance(&mut self, report: Report) -> (step: Step)
        requires
            old(self).stage != Stage::Done,
        ensures
            match (old(self).stage, report) {
                (Stage::Channel, Report::Channel(Err(e))) =>
                    (step matches Step::Finish(Err(m)) && m@ == e@) && final(self).stage == Stage::Done,
                (Stage::Channel, Report::Channel(Ok(c))) => {
                    &&& final(self).channel@ == c@
                    &&& final(self).retried == old(self).retried
                    &&& if old(self).retried {
                        final(self).stage == Stage::Authorize && (step matches Step::Authorize(a) && a@ == c@)
                    } else {
                        final(self).stage == Stage::Connect && step is EnsureConnected
                    }
                },
                (Stage::Connect, Report::Connected(Err(e))) =>
                    (step matches Step::Finish(Err(m)) && m@ == e@) && final(self).stage == Stage::Done,
                (Stage::Connect, Report::Connected(Ok(()))) => {
                    &&& final(self).stage == Stage::Authorize
                    &&& final(self).channel == old(self).channel
                    &&& step matches Step::Authorize(a) && a@ == old(self).channel@
                },
                (Stage::Authorize, Report::Authorized(Ok(auth))) => {
                    &&& final(self).stage == Stage::Send
                    &&& final(self).channel == old(self).channel
                    &&& step matches Step::RegisterAndSend(c, f) && c@ == old(self).channel@
                        && f@ == subscribe_frame_text(old(self).channel@, auth@)
                },
                (Stage::Authorize, Report::Authorized(Err(e))) =>
                    if e@ == "unauthorized"@ && !old(self).retried {
                        final(self).stage == Stage::Channel && final(self).retried && step is RequestChannel
                    } else {
                        (step matches Step::Finish(Err(m)) && m@ == e@) && final(self).stage == Stage::Done
                    },
                (Stage::Send, Report::Sent(Err(e))) =>
                    (step matches Step::Finish(Err(m)) && m@ == e@) && final(self).stage == Stage::Done,
                (Stage::Send, Report::Sent(Ok(()))) =>
                    final(self).stage == Stage::Confirm && step == Step::AwaitConfirmation(CONFIRM_SECONDS),
                (Stage::Confirm, Report::Confirmed(true)) =>
                    (step matches Step::Finish(Ok(c)) && c@ == old(self).channel@) && final(self).stage == Stage::Done,
                (Stage::Confirm, Report::Confirmed(false)) => {
                    &&& final(self).stage == Stage::Done
                    &&& step matches Step::Abandon(c, m) && c@ == old(self).channel@
                        && m@ == "timed out waiting for subscription to succeed"@
                },
                _ => (step matches Step::Finish(Err(m)) && m@ == "report out of order"@) && final(self).stage == Stage::Done,
            },
    {
        let stage = self.stage;
        match (stage, report) {
            (Stage::Channel, Report::Channel(Err(e))) => {
                self.stage = Stage::Done;
                Step::Finish(Err(e))
            },
            (Stage::Channel, Report::Channel(Ok(c))) => {
                self.channel = c;
                if self.retried {
                    self.stage = Stage::Authorize;
                    Step::Authorize(self.channel.clone())
                } else {
                    self.stage = Stage::Connect;
                    Step::EnsureConnected
                }
            },
            (Stage::Connect, Report::Connected(Err(e))) => {
                self.stage = Stage::Done;
                Step::Finish(Err(e))
            },
            (Stage::Connect, Report::Connected(Ok(()))) => {
                self.stage = Stage::Authorize;
                Step::Authorize(self.channel.clone())
            },
            (Stage::Authorize, Report::Authorized(Ok(auth))) => {
                self.stage = Stage::Send;
                let f = subscribe_frame(self.channel.as_str(), auth.as_str());
                Step::RegisterAndSend(self.channel.clone(), f)
            },
            (Stage::Authorize, Report::Authorized(Err(e))) => {
                let unauthorized = String::from_str("unauthorized");
                if e == unauthorized && !self.retried {
                    self.stage = Stage::Channel;
                    self.retried = true;
                    Step::RequestChannel
                } else {
                    self.stage = Stage::Done;
                    Step::Finish(Err(e))
                }
            },
            (Stage::Send, Report::Sent(Err(e))) => {
                self.stage = Stage::Done;
                Step::Finish(Err(e))
            },
            (Stage::Send, Report::Sent(Ok(()))) => {
                self.stage = Stage::Confirm;
                Step::AwaitConfirmation(CONFIRM_SECONDS)
            },
            (Stage::Confirm, Report::Confirmed(ok)) => {
                self.stage = Stage::Done;
                if ok {
                    Step::Finish(Ok(self.channel.clone()))
                } else {
                    Step::Abandon(
                        self.channel.clone(),
                        String::from_str("timed out waiting for subscription to succeed"),
                    )
                }
            },
            _ => {
                self.stage = Stage::Done;
                Step::Finish(Err(String::from_str("report out of order")))
            },
        }
    }
}

} // verus!
