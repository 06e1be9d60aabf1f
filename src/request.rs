//! The HTTP requests that the library builds and the responses it reads.
use vstd::prelude::*;

verus! {

/// An HTTP request for the transport to perform.
#[derive(Debug, Clone)]
pub struct Request {
    pub method: Method,
    pub url: String,
    pub body: Option<String>,
    pub headers: Option<Headers>,
    pub content_type: Option<ContentType>,
}

impl Request {
    pub fn new(
        method: Method,
        url: String,
        body: Option<String>,
        headers: Option<Headers>,
        content_type: Option<ContentType>,
    ) -> (r: Request)
        ensures
            r == (Request { method, url, body, headers, content_type }),
    {
        Request { method, url, body, headers, content_type }
    }
}

#[derive(Debug, Clone, Copy, PartialEq, Eq, Structural)]
pub enum Method {
    Get,
    Post,
    Patch,
    Put,
    Delete,
}

/// The headers that every API request carries.
#[derive(Debug, Clone)]
pub struct Headers {
    pub authorization: String,
    pub x_api_key: Option<String>,
    pub x_bot_key: Option<String>,
    pub user_agent: String,
}

impl Headers {
    /// Empty headers.
    pub fn new() -> (r: Headers)
        ensures
            r.authorization@.len() == 0,
            r.x_api_key is None,
            r.x_bot_key is None,
            r.user_agent@.len() == 0,
    {
        Headers { authorization: String::new(), x_api_key: None, x_bot_key: None, user_agent: String::new() }
    }

    /// A copy of the headers.
    pub fn duplicate(&self) -> (r: Headers)
        ensures
            r == *self,
    {
        Headers {
            authorization: self.authorization.clone(),
            x_api_key: match &self.x_api_key {
                Some(k) => Some(k.clone()),
                None => None,
            },
            x_bot_key: match &self.x_bot_key {
                Some(k) => Some(k.clone()),
                None => None,
            },
            user_agent: self.user_agent.clone(),
        }
    }

    pub fn set_authorization(&mut self, authorization: String)
        ensures
            *final(self) == (Headers { authorization, ..*old(self) }),
    {
        self.authorization = authorization;
    }

    pub fn set_x_api_key(&mut self, x_api_key: String)
        ensures
            *final(self) == (Headers { x_api_key: Some(x_api_key), ..*old(self) }),
    {
        self.x_api_key = Some(x_api_key);
    }

    pub fn set_x_bot_key(&mut self, x_bot_key: String)
        ensures
            *final(self) == (Headers { x_bot_key: Some(x_bot_key), ..*old(self) }),
    {
        self.x_bot_key = Some(x_bot_key);
    }

    pub fn set_user_agent(&mut self, user_agent: String)
        ensures
            *final(self) == (Headers { user_agent, ..*old(self) }),
    {
        self.user_agent = user_agent;
    }
}

/// The content type of a request body.
#[derive(Clone, Copy, Debug, PartialEq, Eq, Structural)]
pub enum ContentType {
    Json,
    Form,
}

pub open spec fn content_type_text(c: ContentType) -> Seq<char> {
    match c {
        ContentType::Json => "application/json"@,
        ContentType::Form => "application/x-www-form-urlencoded"@,
    }
}

impl Default for ContentType {
    /// The JSON content type.
    fn default() -> (r: ContentType)
        ensures
            r == ContentType::Json,
    {
        ContentType::Json
    }
}

impl Default for Headers {
    fn default() -> (r: Headers)
        ensures
            r.authorization@.len() == 0,
            r.x_api_key is None,
            r.x_bot_key is None,
            r.user_agent@.len() == 0,
    {
        Headers::new()
    }
}

impl ContentType {
    /// The MIME type.
    pub fn to_string(&self) -> (r: String)
        ensures
            r@ == content_type_text(*self),
    {
        match self {
            ContentType::Json => String::from_str("application/json"),
            ContentType::Form => String::from_str("application/x-www-form-urlencoded"),
        }
    }
}

/// What the transport got back: the status, the body, and the
/// `X-Ratelimit-Reset` header read as an epoch second, when present.
#[derive(Debug, Clone)]
pub struct Response {
    pub status: u16,
    pub body: String,
    pub x_ratelimit_reset: Option<u64>,
}

impl Response {
    pub fn new(status: u16, body: String, x_ratelimit_reset: Option<u64>) -> (r: Response)
        ensures
            r == (Response { status, body, x_ratelimit_reset }),
    {
        Response { status, body, x_ratelimit_reset }
    }
}

} // verus!
