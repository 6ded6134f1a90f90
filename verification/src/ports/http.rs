//! HTTP requests and responses, as the HTTP client port exchanges them.
use vstd::prelude::*;

use core::time::Duration;

use crate::common::str_map::{text_map, StrMap};

verus! {

/// HTTP method.
#[derive(Debug, Clone, Copy, PartialEq, Eq, Structural)]
pub enum HttpMethod {
    Get,
    Post,
    Put,
    Patch,
    Delete,
}

/// HTTP request.
#[derive(Debug, Clone)]
pub struct HttpRequest {
    pub method: HttpMethod,
    pub url: String,
    pub headers: StrMap<String>,
    pub body: Option<Vec<u8>>,
    pub timeout: Option<Duration>,
}

impl HttpRequest {
    /// A request with no headers, no body and no timeout.
    pub fn new(method: HttpMethod, url: &str) -> (r: Self)
        ensures
            r.method == method,
            r.url@ == url@,
            r.headers@.len() == 0,
            r.body is None,
            r.timeout is None,
    {
        let headers = StrMap::new();
        HttpRequest { method, url: String::from_str(url), headers, body: None, timeout: None }
    }

    /// Sets a header, in place of any header of that name.
    pub fn with_header(self, key: &str, value: &str) -> (r: Self)
        ensures
            r.method == self.method,
            r.url == self.url,
            text_map(r.headers@) == text_map(self.headers@).insert(key@, value@),
            r.body == self.body,
            r.timeout == self.timeout,
    {
        let mut req = self;
        let ghost before = req.headers@;
        req.headers.insert(String::from_str(key), String::from_str(value));
        assert(text_map(req.headers@) =~= text_map(before).insert(key@, value@));
        req
    }

    /// Sets a JSON body, given as its serialized bytes, and the JSON content
    /// type.
    pub fn with_json_body(self, body: Vec<u8>) -> (r: Self)
        ensures
            r.method == self.method,
            r.url == self.url,
            text_map(r.headers@) == text_map(self.headers@).insert(
                "Content-Type"@,
                "application/json"@,
            ),
            r.body == Some(body),
            r.timeout == self.timeout,
    {
        let mut req = self.with_header("Content-Type", "application/json");
        req.body = Some(body);
        req
    }

    /// Sets the timeout.
    pub fn with_timeout(self, timeout: Duration) -> (r: Self)
        ensures
            r.method == self.method,
            r.url == self.url,
            r.headers == self.headers,
            r.body == self.body,
            r.timeout == Some(timeout),
    {
        HttpRequest { timeout: Some(timeout), ..self }
    }
}

/// HTTP response.
#[derive(Debug, Clone)]
pub struct HttpResponse {
    pub status: u16,
    pub headers: StrMap<String>,
    pub body: Vec<u8>,
}

} // verus!
