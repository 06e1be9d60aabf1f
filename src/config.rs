//! The settings that requests are built from: credentials, endpoints and
//! the headers derived from them.
use vstd::prelude::*;
use crate::request::Headers;

verus! {

/// Credentials, endpoints and request headers.
#[derive(Debug, Clone)]
pub struct Config {
    pub api_key: String,
    pub verified_bot_key: Option<String>,
    pub verified_bot_key_api_key: Option<String>,
    pub api_url: String,
    pub socket_url: String,
    pub subscribe_url: String,
    pub subscription_auth_url: String,
    pub headers: Headers,
    pub user_agent: String,
}

/// The `Authorization` header value for an API key.
pub open spec fn bearer(key: Seq<char>) -> Seq<char> {
    "Bearer "@ + key
}

fn bearer_of(key: &str) -> (r: String)
    ensures
        r@ == bearer(key@),
{
    let mut a = String::from_str("Bearer ");
    a.append(key);
    a
}

impl Config {
    /// The public endpoints, no credentials.
    pub fn new() -> (r: Config)
        ensures
            r.api_key@.len() == 0,
            r.verified_bot_key is None,
            r.verified_bot_key_api_key is None,
    {
        Config {
            api_key: String::new(),
            verified_bot_key: None,
            verified_bot_key_api_key: None,
            api_url: String::from_str("https://api.politicsandwar.com/graphql"),
            socket_url: String::from_str("wss://socket.politicsandwar.com/app/a22734a47847a64386c8?protocol=7"),
            subscribe_url: String::from_str("https://api.politicsandwar.com/subscriptions/v1/subscribe/{model}/{event}"),
            subscription_auth_url: String::from_str("https://api.politicsandwar.com/subscriptions/v1/auth"),
            headers: Headers::new(),
            user_agent: String::new(),
        }
    }

    /// Derives the headers from the credentials and the user agent.
    pub fn update_headers(self) -> (r: Config)
        ensures
            r.headers.authorization@ == bearer(self.api_key@),
            r.headers.x_bot_key == if self.verified_bot_key is Some {
                self.verified_bot_key
            } else {
                self.headers.x_bot_key
            },
            r.headers.x_api_key == if self.verified_bot_key_api_key is Some {
                self.verified_bot_key_api_key
            } else {
                self.headers.x_api_key
            },
            r.headers.user_agent == self.user_agent,
            r == (Config { headers: r.headers, ..self }),
    {
        let mut c = self;
        let auth = bearer_of(c.api_key.as_str());
        c.headers.set_authorization(auth);
        match &c.verified_bot_key {
            Some(k) => c.headers.set_x_bot_key(k.clone()),
            None => {},
        }
        match &c.verified_bot_key_api_key {
            Some(k) => c.headers.set_x_api_key(k.clone()),
            None => {},
        }
        c.headers.set_user_agent(c.user_agent.clone());
        c
    }

    pub fn set_api_key(self, api_key: String) -> (r: Config)
        ensures
            r.api_key == api_key,
            r.headers.authorization@ == bearer(api_key@),
            r == (Config { api_key, headers: Headers { authorization: r.headers.authorization, ..self.headers }, ..self }),
    {
        let mut c = self;
        let auth = bearer_of(api_key.as_str());
        c.api_key = api_key;
        c.headers.set_authorization(auth);
        c
    }

    pub fn set_verified_bot_key(self, verified_bot_key: String) -> (r: Config)
        ensures
            r == (Config {
                verified_bot_key: Some(verified_bot_key),
                headers: Headers { x_bot_key: Some(verified_bot_key), ..self.headers },
                ..self
            }),
    {
        let mut c = self;
        c.headers.set_x_bot_key(verified_bot_key.clone());
        c.verified_bot_key = Some(verified_bot_key);
        c
    }

    pub fn set_verified_bot_key_api_key(self, verified_bot_key_api_key: String) -> (r: Config)
        ensures
            r == (Config {
                verified_bot_key_api_key: Some(verified_bot_key_api_key),
                headers: Headers { x_api_key: Some(verified_bot_key_api_key), ..self.headers },
                ..self
            }),
    {
        let mut c = self;
        c.headers.set_x_api_key(verified_bot_key_api_key.clone());
        c.verified_bot_key_api_key = Some(verified_bot_key_api_key);
        c
    }

    pub fn set_api_url(self, api_url: String) -> (r: Config)
        ensures
            r == (Config { api_url, ..self }),
    {
        Config { api_url, ..self }
    }

    pub fn set_socket_url(self, socket_url: String) -> (r: Config)
        ensures
            r == (Config { socket_url, ..self }),
    {
        Config { socket_url, ..self }
    }

    pub fn set_subscribe_url(self, subscribe_url: String) -> (r: Config)
        ensures
            r == (Config { subscribe_url, ..self }),
    {
        Config { subscribe_url, ..self }
    }

    pub fn set_subscription_auth_url(self, subscription_auth_url: String) -> (r: Config)
        ensures
            r == (Config { subscription_auth_url, ..self }),
    {
        Config { subscription_auth_url, ..self }
    }

    /// Sets the user agent, and the header that carries it.
    pub fn set_user_agent(self, user_agent: String) -> (r: Config)
        ensures
            r == (Config { user_agent, headers: Headers { user_agent, ..self.headers }, ..self }),
    {
        let mut c = self;
        c.headers.set_user_agent(user_agent.clone());
        c.user_agent = user_agent;
        c
    }
}

} // verus!
