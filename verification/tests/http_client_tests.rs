use rust_ms::httpclient::{header_value, HttpClient, HttpMethod};
use rust_ms::httpclient_mod::mshttp_c;

fn expect_default_headers(h: &reqwest::header::HeaderMap) {
    assert_eq!(h.len(), 3);
    assert_eq!(h.get("user-agent").unwrap(), "reqwest");
    assert_eq!(h.get("accept").unwrap(), "application/json");
    assert_eq!(h.get("content-type").unwrap(), "application/json");
}

#[test]
fn new_client_succeeds() {
    assert!(HttpClient::new().is_ok());
    assert!(mshttp_c::HttpClient::new().is_ok());
}

#[test]
fn client_headers() {
    let client = HttpClient::new().unwrap();
    expect_default_headers(&client.construct_headers());
}

#[test]
fn first_client_headers() {
    let client = mshttp_c::HttpClient::new().unwrap();
    expect_default_headers(&client.construct_headers());
}

#[test]
fn get_request() {
    let client = HttpClient::new().unwrap();
    let req = client.get("http://localhost:8080/");
    assert_eq!(req.method, HttpMethod::Get);
    assert_eq!(req.url, "http://localhost:8080/");
    assert!(req.body.is_none());
    expect_default_headers(&req.headers);
}

#[test]
fn post_request() {
    let client = mshttp_c::HttpClient::new().unwrap();
    let req = client.post("http://localhost:8080/", String::from("{\"hi\":\"bye\"}"));
    assert_eq!(req.method, HttpMethod::Post);
    assert_eq!(req.url, "http://localhost:8080/");
    assert_eq!(req.body.as_deref(), Some("{\"hi\":\"bye\"}"));
    expect_default_headers(&req.headers);
}

#[test]
fn header_value_holds_text() {
    assert_eq!(header_value("text/plain").as_bytes(), b"text/plain");
}
