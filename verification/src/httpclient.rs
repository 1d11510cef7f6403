//! The service's HTTP client: which requests it makes and with which headers.
//! Sending them is the work of the application around this library.
use vstd::prelude::*;
use vstd::utf8::*;
use reqwest::header::{HeaderMap, HeaderValue};
use crate::headers::{ascii_bytes, header_entries, header_map_insert, header_value_bytes, header_value_from_str, is_header_value_byte, new_header_map};

verus! {

/// std's I/O error, which making a client could report.
#[verifier::external_type_specification]
#[verifier::external_body]
pub struct ExIoError(std::io::Error);

/// The HTTP methods the client uses.
#[derive(PartialEq, Eq, Structural, Clone, Copy, Debug)]
pub enum HttpMethod {
    Get,
    Post,
}

/// A request that the client is to send.
pub struct HttpRequest {
    pub method: HttpMethod,
    pub url: String,
    pub headers: HeaderMap,
    pub body: Option<String>,
}

/// The headers that every request of the client carries: it names itself
/// `reqwest` and sends and accepts JSON.
pub open spec fn default_headers() -> Map<Seq<char>, Seq<Seq<u8>>> {
    Map::empty().insert("user-agent"@, seq![ascii_bytes("reqwest"@)]).insert(
        "accept"@,
        seq![ascii_bytes("application/json"@)],
    ).insert("content-type"@, seq![ascii_bytes("application/json"@)])
}

/// Every request carries exactly three headers: `user-agent: reqwest`,
/// `accept: application/json` and `content-type: application/json`, one
/// value each.
pub proof fn lemma_default_headers()
    ensures
        default_headers().dom().len() == 3,
        default_headers().contains_key("user-agent"@),
        default_headers()["user-agent"@] == seq![seq![114u8, 101, 113, 119, 101, 115, 116]],
        default_headers().contains_key("accept"@),
        default_headers()["accept"@] == seq![
            seq![97u8, 112, 112, 108, 105, 99, 97, 116, 105, 111, 110, 47, 106, 115, 111, 110],
        ],
        default_headers().contains_key("content-type"@),
        default_headers()["content-type"@] == seq![
            seq![97u8, 112, 112, 108, 105, 99, 97, 116, 105, 111, 110, 47, 106, 115, 111, 110],
        ],
{
    reveal_strlit("user-agent");
    reveal_strlit("accept");
    reveal_strlit("content-type");
    reveal_strlit("reqwest");
    reveal_strlit("application/json");
    assert("user-agent"@ != "accept"@) by {
        assert("user-agent"@.len() != "accept"@.len());
    }
    assert("user-agent"@ != "content-type"@) by {
        assert("user-agent"@.len() != "content-type"@.len());
    }
    assert("accept"@ != "content-type"@) by {
        assert("accept"@.len() != "content-type"@.len());
    }
    assert(ascii_bytes("reqwest"@) =~= seq![114u8, 101, 113, 119, 101, 115, 116]);
    assert(ascii_bytes("application/json"@) =~= seq![97u8, 112, 112, 108, 105, 99, 97, 116, 105, 111, 110, 47, 106, 115, 111, 110]);
    assert(default_headers().dom() =~= set!["user-agent"@, "accept"@, "content-type"@]);
}

/// A text of visible ASCII characters.
pub open spec fn is_visible_ascii(s: Seq<char>) -> bool {
    forall|i: int| 0 <= i < s.len() ==> ' ' <= #[trigger] s[i] && s[i] <= '~'
}

/// A visible-ASCII text is encoded byte for byte, and every byte is allowed
/// in a header value.
pub proof fn lemma_visible_ascii_header_bytes(s: Seq<char>)
    requires
        is_visible_ascii(s),
    ensures
        encode_utf8(s) == ascii_bytes(s),
        forall|i: int| 0 <= i < encode_utf8(s).len() ==> is_header_value_byte(#[trigger] encode_utf8(s)[i]),
{
    assert(is_ascii_chars(s));
    is_ascii_chars_encode_utf8(s);
    assert(encode_utf8(s) =~= ascii_bytes(s));
}

/// A header value made from a visible-ASCII text, as `text.parse().unwrap()`.
pub fn header_value(text: &str) -> (v: HeaderValue)
    requires
        is_visible_ascii(text@),
    ensures
        header_value_bytes(v) == ascii_bytes(text@),
{
    proof {
        lemma_visible_ascii_header_bytes(text@);
    }
    header_value_from_str(text).unwrap()
}

/// The headers of every request, as the client builds them.
pub fn client_headers() -> (headers: HeaderMap)
    ensures
        header_entries(headers) == default_headers(),
{
    proof {
        reveal_strlit("reqwest");
        reveal_strlit("application/json");
        reveal_strlit("user-agent");
        reveal_strlit("accept");
        reveal_strlit("content-type");
    }
    let mut headers = new_header_map();
    header_map_insert(&mut headers, "user-agent", header_value("reqwest"));
    header_map_insert(&mut headers, "accept", header_value("application/json"));
    header_map_insert(&mut headers, "content-type", header_value("application/json"));
    headers
}

/// The HTTP client of the service.
pub struct HttpClient {}

impl HttpClient {
    /// A new client; making one never fails.
    pub fn new() -> (r: Result<HttpClient, std::io::Error>)
        ensures
            r is Ok,
    {
        Ok(HttpClient {  })
    }

    /// The headers of every request: user agent `reqwest`, JSON accepted, JSON
    /// sent.
    pub fn construct_headers(&self) -> (headers: HeaderMap)
        ensures
            header_entries(headers) == default_headers(),
    {
        client_headers()
    }

    /// The GET request to `url`, with the client's headers and no body.
    pub fn get(&self, url: &str) -> (req: HttpRequest)
        ensures
            req.method == HttpMethod::Get,
            req.url@ == url@,
            header_entries(req.headers) == default_headers(),
            req.body is None,
    {
        HttpRequest { method: HttpMethod::Get, url: url.to_string(), headers: self.construct_headers(), body: None }
    }

    /// The POST request of `body` to `url`, with the client's headers.
    pub fn post(&self, url: &str, body: String) -> (req: HttpRequest)
        ensures
            req.method == HttpMethod::Post,
            req.url@ == url@,
            header_entries(req.headers) == default_headers(),
            req.body matches Some(b) && b@ == body@,
    {
        HttpRequest {
            method: HttpMethod::Post,
            url: url.to_string(),
            headers: self.construct_headers(),
            body: Some(body),
        }
    }
}

} // verus!
