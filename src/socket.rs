//! The socket's state and decisions under the Pusher protocol: what an
//! inbound frame does, when to ping, when the connection is given up, and
//! what a close code calls for. The transport itself is driven from outside.
use vstd::prelude::*;
use crate::event::{Event, EventInner};
use crate::subscribe::text_field;
use crate::text::int_text;
use crate::value::{Object, Value, lookup, i32_of};

verus! {

/// The activity timeout, in seconds, before the server names its own.
pub const DEFAULT_ACTIVITY_TIMEOUT: u16 = 120;
/// Seconds to back off after a failed or redundant ping.
pub const PING_BACKOFF: u64 = 2;
/// Seconds to wait for a pong before the connection is given up.
pub const PONG_TIMEOUT: u64 = 30;

/// The state of the connection.
#[derive(Debug, Clone)]
pub struct SocketState {
    pub established: Event,
    pub connected: Event,
    pub socket_id: Option<String>,
    pub activity_timeout: u16,
    pub last_message: Option<u64>,
    pub pinged: bool,
    pub ponged: bool,
    /// Whether an outbound half of a connection is held.
    pub has_sink: bool,
}

/// What an inbound text frame calls for.
#[derive(Debug)]
pub enum Inbound {
    /// The connection is established; the socket id is stored.
    Established,
    /// The subscription on this channel is confirmed: set its latch.
    Confirmed(String),
    /// A pong arrived.
    Ponged,
    /// Answer a ping with this frame; a failure to send is ignored.
    ReplyPong(String),
    /// Deliver these objects, in order, to the subscription on this channel.
    Deliver(String, Vec<Object>),
    /// The frame is not understood.
    Ignored,
}

/// What a close frame calls for.
#[derive(Debug)]
pub enum Closing {
    /// The server ended the connection for good, with this message.
    Fatal(String),
    /// Reconnect after this many seconds.
    ReconnectAfter(u64),
}

/// What the heartbeat does next.
#[derive(Debug, PartialEq, Eq, Structural)]
pub enum Heartbeat {
    /// Sleep this many seconds, then look again.
    Sleep(u64),
    /// Send a ping frame.
    SendPing,
}

/// What an inbound text frame is, as the protocol reads it.
pub enum FrameKind {
    /// The connection is established, with this socket id and activity timeout.
    Established(Seq<char>, i32),
    /// The subscription on this channel is confirmed.
    Confirmed(Seq<char>),
    Pong,
    Ping,
    /// These objects are delivered to the subscription on this channel.
    Deliver(Seq<char>, Seq<Object>),
    /// Not understood.
    Unknown,
}

/// The integer under `key` of an object value, as `as_i32` reads it.
pub open spec fn int_of(v: Value, key: Seq<char>) -> Option<i32> {
    match v {
        Value::Object(o) => match lookup(o@, key) {
            Some(x) => i32_of(x),
            None => None,
        },
        _ => None,
    }
}

/// The data of a frame as the protocol means it: a text that holds JSON
/// stands for what it decodes to (`decoded`), anything else for itself.
pub open spec fn effective_data(frame: Value, decoded: Option<Value>) -> Option<Value> {
    match frame {
        Value::Object(o) => match lookup(o@, "data"@) {
            Some(Value::String(_)) => decoded,
            Some(v) => Some(v),
            None => None,
        },
        _ => None,
    }
}

/// The text of a frame's data where it is a text: what the driver decodes.
pub fn data_text(frame: &Value) -> (r: Option<&str>)
    ensures
        r is Some == (frame matches Value::Object(o) && lookup(o@, "data"@) matches Some(Value::String(_))),
        r matches Some(t) ==> text_field(*frame, "data"@) == Some(t@),
{
    match frame {
        Value::Object(o) => match o.get("data") {
            Some(Value::String(s)) => Some(s.as_str()),
            _ => None,
        },
        _ => None,
    }
}

/// The event name begins with `BULK_`.
pub open spec fn is_bulk(name: Seq<char>) -> bool {
    name.len() >= 5 && name.subrange(0, 5) == "BULK_"@
}

fn bulk_name(name: &str) -> (r: bool)
    ensures
        r == is_bulk(name@),
{
    if name.unicode_len() < 5 {
        return false;
    }
    let head = String::from_str(name.substring_char(0, 5));
    let bulk = String::from_str("BULK_");
    head == bulk
}

/// How the protocol reads a frame whose text data, if any, decodes to
/// `decoded`: by its event name, then its channel and data.
pub open spec fn classify(frame: Value, decoded: Option<Value>) -> FrameKind {
    match text_field(frame, "event"@) {
        None => FrameKind::Unknown,
        Some(e) => if e == "pusher:connection_established"@ {
            match effective_data(frame, decoded) {
                Some(d) => match text_field(d, "socket_id"@) {
                    Some(id) => match int_of(d, "activity_timeout"@) {
                        Some(t) => if id.len() > 0 { FrameKind::Established(id, t) } else { FrameKind::Unknown },
                        None => FrameKind::Unknown,
                    },
                    None => FrameKind::Unknown,
                },
                None => FrameKind::Unknown,
            }
        } else if e == "pusher_internal:subscription_succeeded"@ {
            match text_field(frame, "channel"@) {
                Some(c) => FrameKind::Confirmed(c),
                None => FrameKind::Unknown,
            }
        } else if e == "pusher:pong"@ {
            FrameKind::Pong
        } else if e == "pusher:ping"@ {
            FrameKind::Ping
        } else {
            match text_field(frame, "channel"@) {
                None => FrameKind::Unknown,
                Some(c) => match effective_data(frame, decoded) {
                    Some(Value::Array(items)) => if is_bulk(e) && all_objects(items@) {
                        FrameKind::Deliver(c, objects_of(items@))
                    } else {
                        FrameKind::Unknown
                    },
                    Some(Value::Object(o)) => if !is_bulk(e) {
                        FrameKind::Deliver(c, seq![o])
                    } else {
                        FrameKind::Unknown
                    },
                    _ => FrameKind::Unknown,
                },
            }
        },
    }
}

/// Every item is an object.
pub open spec fn all_objects(s: Seq<Value>) -> bool {
    forall|i: int| 0 <= i < s.len() ==> (#[trigger] s[i]) is Object
}

/// The objects that a list of object values holds.
pub open spec fn objects_of(s: Seq<Value>) -> Seq<Object> {
    Seq::new(s.len(), |i: int| s[i]->Object_0)
}

fn take_objects(items: Vec<Value>) -> (r: Option<Vec<Object>>)
    ensures
        r is Some == all_objects(items@),
        r matches Some(v) ==> v@ == objects_of(items@),
{
    let mut i: usize = 0;
    while i < items.len()
        invariant
            i <= items@.len(),
            forall|j: int| 0 <= j < i ==> (#[trigger] items@[j]) is Object,
        decreases items@.len() - i,
    {
        match &items[i] {
            Value::Object(_) => {},
            _ => return None,
        }
        i = i + 1;
    }
    let mut items = items;
    let ghost all = items@;
    let ghost n = all.len();
    let mut out: Vec<Object> = Vec::new();
    while items.len() > 0
        invariant
            n == all.len(),
            all_objects(all),
            items@.len() <= n,
            items@ == all.subrange(n - items@.len(), n as int),
            out@ == objects_of(all.subrange(0, n - items@.len())),
        decreases items@.len(),
    {
        let ghost k = n - items@.len();
        let x = items.remove(0);
        assert(x == all[k]);
        match x {
            Value::Object(o) => out.push(o),
            _ => {},
        }
        assert(items@ =~= all.subrange(n - items@.len(), n as int));
        assert(out@ =~= objects_of(all.subrange(0, n - items@.len())));
    }
    assert(all.subrange(0, n as int) =~= all);
    Some(out)
}

/// The pong frame.
pub fn pong_frame() -> (r: String)
    ensures
        r@ == "{\"event\":\"pusher:pong\",\"data\":{}}"@,
{
    String::from_str("{\"event\":\"pusher:pong\",\"data\":{}}")
}

/// The ping frame.
pub fn ping_frame() -> (r: String)
    ensures
        r@ == "{\"event\":\"pusher:ping\",\"data\":{}}"@,
{
    String::from_str("{\"event\":\"pusher:ping\",\"data\":{}}")
}

/// What a close code calls for: none, or one from 4000 to 4099, is fatal;
/// one from 4100 to 4199 asks to reconnect after a second; any other, at once.
pub open spec fn close_delay(code: Option<u16>) -> Option<u64> {
    match code {
        None => None,
        Some(c) => if 4000 <= c < 4100 { None } else if 4100 <= c < 4200 { Some(1) } else { Some(0) },
    }
}

impl SocketState {
    /// An established socket has a non-empty id; a held sink implies a
    /// connection.
    pub open spec fn wf(&self) -> bool {
        &&& self.established.state.0 ==> (self.socket_id matches Some(id) && id@.len() > 0)
        &&& self.has_sink ==> self.connected.state.0
    }

    /// A socket that has not connected.
    pub fn new() -> (r: SocketState)
        ensures
            r.wf(),
            !r.established.state.0,
            !r.connected.state.0,
            r.socket_id is None,
            r.activity_timeout == DEFAULT_ACTIVITY_TIMEOUT,
            r.last_message is None,
            !r.pinged,
            !r.ponged,
            !r.has_sink,
    {
        SocketState {
            established: Event::new(),
            connected: Event::new(),
            socket_id: None,
            activity_timeout: DEFAULT_ACTIVITY_TIMEOUT,
            last_message: None,
            pinged: false,
            ponged: false,
            has_sink: false,
        }
    }

    /// Whether a subscription must connect the socket first.
    pub fn needs_connect(&self) -> (r: bool)
        ensures
            r == !self.connected.state.0,
    {
        !self.connected.is_set()
    }

    /// A connection attempt begins: the socket counts as connected.
    pub fn begin_connect(&mut self)
        requires
            old(self).wf(),
        ensures
            final(self).wf(),
            *final(self) == (SocketState { connected: Event { state: EventInner(true) }, ..*old(self) }),
    {
        self.connected.set();
    }

    /// The connection attempt failed: the socket is not connected.
    pub fn connect_failed(&mut self)
        requires
            old(self).wf(),
        ensures
            final(self).wf(),
            !final(self).connected.state.0,
            !final(self).has_sink,
            final(self).established == old(self).established,
            final(self).socket_id == old(self).socket_id,
    {
        self.connected.clear();
        self.has_sink = false;
    }

    /// The connection is open and its outbound half is held.
    pub fn connect_succeeded(&mut self)
        requires
            old(self).wf(),
        ensures
            final(self).wf(),
            *final(self) == (SocketState {
                connected: Event { state: EventInner(true) },
                has_sink: true,
                ..*old(self)
            }),
    {
        self.connected.set();
        self.has_sink = true;
    }

    /// A reconnection opened a new connection: no ping is outstanding.
    pub fn reconnected(&mut self)
        requires
            old(self).wf(),
        ensures
            final(self).wf(),
            *final(self) == (SocketState { pinged: false, ponged: true, ..*old(self) }),
    {
        self.pinged = false;
        self.ponged = true;
    }

    /// Whether a frame may be sent: only over a held connection.
    pub fn send_allowed(&self) -> (r: Result<(), String>)
        ensures
            r is Ok == self.has_sink,
            r matches Err(m) ==> m@ == "not connected"@,
    {
        if self.has_sink {
            Ok(())
        } else {
            Err(String::from_str("not connected"))
        }
    }

    /// Handles an inbound text frame, decoded as JSON, that arrived at time
    /// `now`. Where its data is a text, `decoded` is what that text decodes
    /// to.
    pub fn on_text(&mut self, frame: Value, decoded: Option<Value>, now: u64) -> (r: Inbound)
        requires
            old(self).wf(),
        ensures
            final(self).wf(),
            final(self).last_message == Some(now),
            final(self).connected == old(self).connected,
            final(self).has_sink == old(self).has_sink,
            !(r is Established) ==> {
                &&& final(self).established == old(self).established
                &&& final(self).socket_id == old(self).socket_id
                &&& final(self).activity_timeout == old(self).activity_timeout
            },
            !(r is Ponged) ==> final(self).ponged == old(self).ponged && final(self).pinged == old(self).pinged,
            match classify(frame, decoded) {
                FrameKind::Established(id, t) => {
                    &&& r is Established
                    &&& final(self).established.state.0
                    &&& (final(self).socket_id matches Some(s) && s@ == id)
                    &&& final(self).activity_timeout == if 0 <= t < old(self).activity_timeout {
                        t as u16
                    } else {
                        old(self).activity_timeout
                    }
                },
                FrameKind::Confirmed(c) => (r matches Inbound::Confirmed(x) && x@ == c),
                FrameKind::Pong => r is Ponged && final(self).ponged && !final(self).pinged,
                FrameKind::Ping => (r matches Inbound::ReplyPong(f) && f@ == "{\"event\":\"pusher:pong\",\"data\":{}}"@),
                FrameKind::Deliver(c, objs) => (r matches Inbound::Deliver(x, v) && x@ == c && v@ == objs),
                FrameKind::Unknown => r is Ignored,
            },
    {
        self.last_message = Some(now);
        let event = match &frame {
            Value::Object(o) => match o.get("event") {
                Some(Value::String(e)) => e.clone(),
                _ => return Inbound::Ignored,
            },
            _ => return Inbound::Ignored,
        };
        let channel: Option<String> = match &frame {
            Value::Object(o) => match o.get("channel") {
                Some(Value::String(c)) => Some(c.clone()),
                _ => None,
            },
            _ => None,
        };
        proof {
            reveal_strlit("pusher:connection_established");
            reveal_strlit("pusher_internal:subscription_succeeded");
            reveal_strlit("pusher:pong");
            reveal_strlit("pusher:ping");
            assert("pusher:connection_established"@.len() == 29);
            assert("pusher_internal:subscription_succeeded"@.len() == 38);
            assert("pusher:pong"@.len() == 11);
            assert("pusher:ping"@.len() == 11);
            assert("pusher:pong"@[8] != "pusher:ping"@[8]);
        }
        let ghost frame0 = frame;
        let is_string_data = data_text(&frame).is_some();
        let data: Option<Value> = if is_string_data {
            decoded
        } else {
            match frame {
                Value::Object(mut o) => o.remove("data"),
                _ => None,
            }
        };
        assert(data == effective_data(frame0, decoded));
        let established = String::from_str("pusher:connection_established");
        let succeeded = String::from_str("pusher_internal:subscription_succeeded");
        let pong = String::from_str("pusher:pong");
        let ping = String::from_str("pusher:ping");
        if event == established {
            let d = match &data {
                Some(d) => d,
                None => return Inbound::Ignored,
            };
            let id = match d {
                Value::Object(o) => match o.get("socket_id") {
                    Some(Value::String(s)) => s.clone(),
                    _ => return Inbound::Ignored,
                },
                _ => return Inbound::Ignored,
            };
            let timeout = match d {
                Value::Object(o) => match o.get("activity_timeout") {
                    Some(t) => t.as_i32(),
                    None => None,
                },
                _ => None,
            };
            if id.as_str().unicode_len() == 0 {
                return Inbound::Ignored;
            }
            match timeout {
                Some(t) => {
                    if 0 <= t && t < self.activity_timeout as i32 {
                        self.activity_timeout = t as u16;
                    }
                },
                None => return Inbound::Ignored,
            }
            self.socket_id = Some(id);
            self.established.set();
            Inbound::Established
        } else if event == succeeded {
            match channel {
                Some(c) => Inbound::Confirmed(c),
                None => Inbound::Ignored,
            }
        } else if event == pong {
            self.ponged = true;
            self.pinged = false;
            Inbound::Ponged
        } else if event == ping {
            Inbound::ReplyPong(pong_frame())
        } else {
            let c = match channel {
                Some(c) => c,
                None => return Inbound::Ignored,
            };
            if bulk_name(event.as_str()) {
                match data {
                    Some(Value::Array(items)) => match take_objects(items) {
                        Some(objs) => Inbound::Deliver(c, objs),
                        None => Inbound::Ignored,
                    },
                    _ => Inbound::Ignored,
                }
            } else {
                match data {
                    Some(Value::Object(o)) => {
                        let objs = vec![o];
                        Inbound::Deliver(c, objs)
                    },
                    _ => Inbound::Ignored,
                }
            }
        }
    }

    /// Handles a close frame: the connection is gone; the code decides what
    /// follows.
    pub fn on_close(&mut self, code: Option<u16>) -> (r: Closing)
        requires
            old(self).wf(),
        ensures
            final(self).wf(),
            !final(self).established.state.0,
            !final(self).connected.state.0,
            !final(self).has_sink,
            final(self).socket_id == old(self).socket_id,
            match close_delay(code) {
                None => r is Fatal,
                Some(d) => r == Closing::ReconnectAfter(d),
            },
    {
        self.established.clear();
        self.connected.clear();
        self.has_sink = false;
        match code {
            None => Closing::Fatal(String::from_str("socket closed without code")),
            Some(c) => {
                if 4000 <= c && c < 4100 {
                    let mut m = String::from_str("socket closed with code ");
                    let n = int_text(c as i64);
                    m.append(n.as_str());
                    Closing::Fatal(m)
                } else if 4100 <= c && c < 4200 {
                    Closing::ReconnectAfter(1)
                } else {
                    Closing::ReconnectAfter(0)
                }
            },
        }
    }

    /// The heartbeat's next move at time `now`: with no message yet, sleep
    /// the activity timeout; once the connection has been quiet that long,
    /// ping, unless a ping is outstanding (then back off); else sleep the
    /// rest of the timeout.
    pub fn heartbeat(&self, now: u64) -> (r: Heartbeat)
        ensures
            r == match self.last_message {
                None => Heartbeat::Sleep(self.activity_timeout as u64),
                Some(t) => if now >= t && now - t >= self.activity_timeout {
                    if self.pinged { Heartbeat::Sleep(PING_BACKOFF) } else { Heartbeat::SendPing }
                } else if now >= t {
                    Heartbeat::Sleep((self.activity_timeout - (now - t)) as u64)
                } else {
                    Heartbeat::Sleep(self.activity_timeout as u64)
                },
            },
    {
        match self.last_message {
            None => Heartbeat::Sleep(self.activity_timeout as u64),
            Some(t) => {
                if now >= t && now - t >= self.activity_timeout as u64 {
                    if self.pinged {
                        Heartbeat::Sleep(PING_BACKOFF)
                    } else {
                        Heartbeat::SendPing
                    }
                } else if now >= t {
                    Heartbeat::Sleep(self.activity_timeout as u64 - (now - t))
                } else {
                    Heartbeat::Sleep(self.activity_timeout as u64)
                }
            },
        }
    }

    /// A ping went out (`sent`) or failed to. After a failure the heartbeat
    /// backs off; after a success a pong is awaited for `PONG_TIMEOUT`
    /// seconds. Returns the seconds to wait.
    pub fn ping_sent(&mut self, sent: bool) -> (wait: u64)
        requires
            old(self).wf(),
        ensures
            final(self).wf(),
            !sent ==> *final(self) == *old(self) && wait == PING_BACKOFF,
            sent ==> *final(self) == (SocketState { pinged: true, ponged: false, ..*old(self) })
                && wait == PONG_TIMEOUT,
    {
        if sent {
            self.pinged = true;
            self.ponged = false;
            PONG_TIMEOUT
        } else {
            PING_BACKOFF
        }
    }

    /// The pong wait is over. Without a pong the connection is given up: it
    /// is no longer established, its sink is dropped, and `true` asks for a
    /// reconnection.
    pub fn pong_deadline(&mut self) -> (reconnect: bool)
        requires
            old(self).wf(),
        ensures
            final(self).wf(),
            reconnect == !old(self).ponged,
            !reconnect ==> *final(self) == *old(self),
            reconnect ==> !final(self).established.state.0 && !final(self).has_sink
                && final(self).connected == old(self).connected
                && final(self).socket_id == old(self).socket_id,
    {
        if self.ponged {
            false
        } else {
            self.established.clear();
            self.has_sink = false;
            true
        }
    }
}

/// A socket that is not connected refuses outbound sends, and an
/// established socket always has a non-empty id.
pub proof fn lemma_socket_invariants(s: SocketState)
    requires
        s.wf(),
    ensures
        !s.connected.state.0 ==> !s.has_sink,
        s.established.state.0 ==> (s.socket_id matches Some(id) && id@.len() > 0),
{
}

} // verus!
