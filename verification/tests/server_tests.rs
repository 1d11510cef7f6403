use rust_ms::httpclient::HttpMethod;
use rust_ms::httpserver_mod::mshttp_s::{
    body_handler, hello_world, json_result, listen_address, parsed_body, query_handler, response_time_ns, routes,
    Handler, ResponseBody, MAX_BODY_LENGTH,
};
use rust_ms::json::{JsonNumber, JsonValue};

fn text_of(body: &ResponseBody) -> &str {
    match body {
        ResponseBody::Text(t) => t.as_str(),
        ResponseBody::Json(_) => panic!("expected text"),
    }
}

#[test]
fn hello_world_answers() {
    let r = hello_world();
    assert_eq!(r.status, 200);
    assert!(!r.json_content_type);
    assert_eq!(text_of(&r.body), "Hello World");
}

#[test]
fn query_handler_echoes_parameter() {
    let mut params = router::Params::new();
    params.insert("query".to_string(), "abc".to_string());
    let r = query_handler(&params);
    assert_eq!(r.status, 200);
    assert_eq!(text_of(&r.body), "abc");
}

#[test]
fn query_handler_without_parameter() {
    let mut params = router::Params::new();
    params.insert("other".to_string(), "abc".to_string());
    let r = query_handler(&params);
    assert_eq!(text_of(&r.body), "/");
}

#[test]
fn json_result_document() {
    let doc = json_result();
    assert_eq!(doc.str_at("name", "x"), None);
    assert_eq!(doc.get("name").and_then(|v| v.as_str()), Some("John Doe"));
    assert_eq!(doc.get("age").and_then(|v| v.as_i64()), Some(43));
    match doc.get("phones") {
        Some(JsonValue::Array(items)) => {
            assert_eq!(items.len(), 2);
            assert_eq!(items[0].as_str(), Some("+44 1234567"));
            assert_eq!(items[1].as_str(), Some("+44 2345678"));
        },
        _ => panic!("phones must be an array"),
    }
}

#[test]
fn body_handler_answers_json() {
    let r = body_handler();
    assert_eq!(r.status, 200);
    assert!(r.json_content_type);
    match r.body {
        ResponseBody::Json(doc) => assert!(matches!(doc.get("age"), Some(JsonValue::Number(JsonNumber::PosInt(43))))),
        ResponseBody::Text(_) => panic!("expected JSON"),
    }
}

#[test]
fn route_table() {
    let rs = routes();
    assert_eq!(rs.len(), 4);
    assert_eq!((rs[0].method, rs[0].path, rs[0].name, rs[0].handler), (HttpMethod::Get, "/", "root", Handler::HelloWorld));
    assert!(!rs[0].timed);
    assert_eq!((rs[1].method, rs[1].path, rs[1].name, rs[1].handler), (HttpMethod::Get, "/hello", "hello", Handler::HelloWorld));
    assert!(rs[1].timed);
    assert_eq!((rs[2].method, rs[2].path, rs[2].name, rs[2].handler), (HttpMethod::Get, "/:query", "query", Handler::Query));
    assert!(rs[2].timed);
    assert_eq!((rs[3].method, rs[3].path, rs[3].name, rs[3].handler), (HttpMethod::Post, "/", "body", Handler::Body));
    assert!(rs[3].parses_json && !rs[3].timed);
}

#[test]
fn body_limit_is_ten_mebibytes() {
    assert_eq!(MAX_BODY_LENGTH, 10_485_760);
}

#[test]
fn listen_address_joins_host_and_port() {
    assert_eq!(listen_address("127.0.0.1", 8080), "127.0.0.1:8080");
    assert_eq!(listen_address("localhost", -1), "localhost:-1");
}

#[test]
fn response_time() {
    assert_eq!(response_time_ns(1_000, 3_500_000), 3_499_000);
    assert_eq!(response_time_ns(7, 7), 0);
}

#[test]
fn parsed_body_keeps_documents_only() {
    let kept = parsed_body(Ok(Some(JsonValue::Bool(true))));
    assert!(matches!(kept, Some(JsonValue::Bool(true))));
    assert!(parsed_body(Ok(None)).is_none());
    assert!(parsed_body(Err("bad".to_string())).is_none());
}
