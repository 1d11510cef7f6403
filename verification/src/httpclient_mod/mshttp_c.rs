//! An HTTP client of the service, kept in the `mshttp_c` module. It sends the
//! same headers and makes the same requests as `crate::httpclient::HttpClient`.
use vstd::prelude::*;
use reqwest::header::HeaderMap;
use crate::headers::header_entries;
use crate::httpclient::{client_headers, default_headers, HttpMethod, HttpRequest};

verus! {

/// The HTTP client of the service.
pub struct HttpClient {}

impl HttpClient {
    /// A new client; making one never fails.
    pub fn new() -> (r: Result<HttpClient, std::io::Error>)
        ensures
            r is Ok,
    {
        Ok(HttpClient {  })
    }

    /// The headers of every request: user agent `reqwest`, JSON accepted, JSON
    /// sent.
    pub fn construct_headers(&self) -> (headers: HeaderMap)
        ensures
            header_entries(headers) == default_headers(),
    {
        client_headers()
    }

    /// The GET request to `url`, with the client's headers and no body.
    pub fn get(&self, url: &str) -> (req: HttpRequest)
        ensures
            req.method == HttpMethod::Get,
            req.url@ == url@,
            header_entries(req.headers) == default_headers(),
            req.body is None,
    {
        HttpRequest { method: HttpMethod::Get, url: url.to_string(), headers: self.construct_headers(), body: None }
    }

    /// The POST request of `body` to `url`, with the client's headers.
    pub fn post(&self, url: &str, body: String) -> (req: HttpRequest)
        ensures
            req.method == HttpMethod::Post,
            req.url@ == url@,
            header_entries(req.headers) == default_headers(),
            req.body matches Some(b) && b@ == body@,
    {
        HttpRequest {
            method: HttpMethod::Post,
            url: url.to_string(),
            headers: self.construct_headers(),
            body: Some(body),
        }
    }
}

} // verus!
