//! The records that the API's answers carry: a GraphQL error, the `data` of
//! a successful answer, and the token of an authorization.
use vstd::prelude::*;
use crate::kit::error_message;
use crate::subscribe::text_field;
use crate::value::{Object, Value};

verus! {

/// One GraphQL error.
#[derive(Clone, Debug)]
pub struct Error {
    pub message: String,
}

impl Error {
    /// The error that a decoded error record describes: its `message` text,
    /// else an empty one.
    pub fn from_value(v: &Value) -> (r: Error)
        ensures
            r.message@ == error_message(*v),
    {
        let message = match v {
            Value::Object(o) => match o.get("message") {
                Some(Value::String(m)) => m.clone(),
                _ => String::new(),
            },
            _ => String::new(),
        };
        Error { message }
    }
}

/// The `data` object of a successful answer.
#[derive(Debug)]
pub struct Data(pub Object);

impl Data {
    pub fn inner(self) -> (r: Object)
        ensures
            r == self.0,
    {
        self.0
    }
}

/// The answer to an authorization request.
#[derive(Clone, Debug)]
pub struct SubscriptionAuthData {
    pub auth: String,
}

impl SubscriptionAuthData {
    /// The authorization that a decoded answer carries, if it has an `auth`
    /// text.
    pub fn from_value(v: &Value) -> (r: Option<SubscriptionAuthData>)
        ensures
            r is Some == text_field(*v, "auth"@) is Some,
            r matches Some(a) ==> text_field(*v, "auth"@) == Some(a.auth@),
    {
        match v {
            Value::Object(o) => match o.get("auth") {
                Some(Value::String(a)) => Some(SubscriptionAuthData { auth: a.clone() }),
                _ => None,
            },
            _ => None,
        }
    }
}

} // verus!
