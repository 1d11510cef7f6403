//! The service's HTTP server: its routes and what each handler answers.
//! Listening, timing and logging are the work of the application around this
//! library.
use vstd::prelude::*;
use vstd::string::StringExecFns;
use router::Params;
use crate::format::{lemma_signed_decimal_round_trip, push_signed_decimal, signed_decimal, signed_value};
use crate::httpclient::HttpMethod;
use crate::json::{lemma_lookup_first_member, JsonNumber, JsonValue, JsonView};

verus! {

/// The router's parameters of a matched path.
#[verifier::external_type_specification]
#[verifier::external_body]
pub struct ExParams(Params);

/// The route parameters that the router found in a request's path, by name.
pub uninterp spec fn params_entries(p: Params) -> Map<Seq<char>, Seq<char>>;

/// `Params::find`: the value of the parameter named `key`, if the path has
/// one.
#[verifier::external_body]
fn params_find<'a>(p: &'a Params, key: &str) -> (r: Option<&'a str>)
    ensures
        r is Some <==> params_entries(*p).contains_key(key@),
        r matches Some(s) ==> s@ == params_entries(*p)[key@],
{
    p.find(key)
}

/// The largest request body, in bytes, that the body route reads as JSON.
pub const MAX_BODY_LENGTH: usize = 1024 * 1024 * 10;

/// The body of a response: plain text, or a JSON document.
pub enum ResponseBody {
    Text(String),
    Json(JsonValue),
}

/// What a handler answers: a status code, whether the body is declared as
/// JSON, and the body.
pub struct HandlerResponse {
    pub status: u16,
    pub json_content_type: bool,
    pub body: ResponseBody,
}

/// A response of status 200 with the given text and no declared content type.
pub open spec fn is_text_ok(r: HandlerResponse, text: Seq<char>) -> bool {
    &&& r.status == 200
    &&& !r.json_content_type
    &&& r.body matches ResponseBody::Text(t) && t@ == text
}

/// `GET /` and `GET /hello`: "Hello World".
pub fn hello_world() -> (r: HandlerResponse)
    ensures
        is_text_ok(r, "Hello World"@),
        r.status == 200 && !r.json_content_type,
        r.body matches ResponseBody::Text(t) && t@ == "Hello World"@,
{
    HandlerResponse {
        status: 200,
        json_content_type: false,
        body: ResponseBody::Text("Hello World".to_string()),
    }
}

/// `GET /:query`: the path parameter `query` itself, or `/` when the router
/// found none.
pub fn query_handler(params: &Params) -> (r: HandlerResponse)
    ensures
        is_text_ok(
            r,
            if params_entries(*params).contains_key("query"@) {
                params_entries(*params)["query"@]
            } else {
                "/"@
            },
        ),
        r.status == 200 && !r.json_content_type,
        params_entries(*params).contains_key("query"@) ==> (r.body matches ResponseBody::Text(t) && t@ == params_entries(
            *params,
        )["query"@]),
        !params_entries(*params).contains_key("query"@) ==> (r.body matches ResponseBody::Text(t) && t@ == "/"@),
{
    let query = match params_find(params, "query") {
        Some(q) => q,
        None => "/",
    };
    HandlerResponse { status: 200, json_content_type: false, body: ResponseBody::Text(query.to_string()) }
}

/// The document that `POST /` answers with.
pub open spec fn json_result_view() -> JsonView {
    JsonView::Object(
        seq![
            ("name"@, JsonView::Str("John Doe"@)),
            ("age"@, JsonView::PosInt(43)),
            ("phones"@, JsonView::Array(seq![JsonView::Str("+44 1234567"@), JsonView::Str("+44 2345678"@)])),
        ],
    )
}

/// The document that `POST /` answers with: a person with a name, an age and
/// two phone numbers.
pub fn json_result() -> (r: JsonValue)
    ensures
        r@ == json_result_view(),
        r@ is Object && r@->Object_0.len() == 3,
        r@.member("name"@) == JsonView::Str("John Doe"@),
        r@.member("age"@) == JsonView::PosInt(43),
        r@.member("phones"@) == JsonView::Array(seq![JsonView::Str("+44 1234567"@), JsonView::Str("+44 2345678"@)]),
{
    let phone1 = JsonValue::String("+44 1234567".to_string());
    let phone2 = JsonValue::String("+44 2345678".to_string());
    assert(phone1@ == JsonView::Str("+44 1234567"@));
    assert(phone2@ == JsonView::Str("+44 2345678"@));
    let mut phones: Vec<JsonValue> = Vec::new();
    phones.push(phone1);
    phones.push(phone2);
    let phones = JsonValue::Array(phones);
    assert(phones@->Array_0 =~= seq![JsonView::Str("+44 1234567"@), JsonView::Str("+44 2345678"@)]);
    let name = JsonValue::String("John Doe".to_string());
    assert(name@ == JsonView::Str("John Doe"@));
    let age = JsonValue::Number(JsonNumber::PosInt(43));
    assert(age@ == JsonView::PosInt(43));
    let mut members: Vec<(String, JsonValue)> = Vec::new();
    members.push(("name".to_string(), name));
    members.push(("age".to_string(), age));
    members.push(("phones".to_string(), phones));
    let r = JsonValue::Object(members);
    assert(r@->Object_0 =~= json_result_view()->Object_0);
    proof {
        reveal_strlit("name");
        reveal_strlit("age");
        reveal_strlit("phones");
        assert("name"@ != "age"@) by {
            assert("name"@.len() != "age"@.len());
        }
        assert("name"@ != "phones"@) by {
            assert("name"@.len() != "phones"@.len());
        }
        assert("age"@ != "phones"@) by {
            assert("age"@.len() != "phones"@.len());
        }
        lemma_lookup_first_member(r@, "name"@, 0);
        lemma_lookup_first_member(r@, "age"@, 1);
        lemma_lookup_first_member(r@, "phones"@, 2);
    }
    r
}

/// `POST /`: status 200, declared as JSON, with the document of `json_result`.
pub fn body_handler() -> (r: HandlerResponse)
    ensures
        r.status == 200,
        r.json_content_type,
        r.body matches ResponseBody::Json(doc) && doc@ == json_result_view(),
{
    HandlerResponse { status: 200, json_content_type: true, body: ResponseBody::Json(json_result()) }
}

/// How long a request took, in nanoseconds, from the clock readings taken
/// before and after its handler ran. The clock never runs backwards.
pub fn response_time_ns(start_ns: u64, end_ns: u64) -> (elapsed: u64)
    requires
        start_ns <= end_ns,
    ensures
        start_ns + elapsed == end_ns,
{
    end_ns - start_ns
}

/// What the JSON body parser does with the body it read: a parsed document
/// is kept for the handler; an empty body or one that fails to parse leaves
/// nothing to keep.
pub fn parsed_body(outcome: Result<Option<JsonValue>, String>) -> (kept: Option<JsonValue>)
    ensures
        kept matches Some(doc) ==> (outcome matches Ok(Some(parsed)) && doc@ == parsed@),
        kept is None <==> !(outcome matches Ok(Some(_))),
{
    match outcome {
        Ok(Some(doc)) => Some(doc),
        Ok(None) => None,
        Err(_) => None,
    }
}

/// The handlers of the server.
#[derive(PartialEq, Eq, Structural, Clone, Copy, Debug)]
pub enum Handler {
    HelloWorld,
    Query,
    Body,
}

/// A route: the method and path pattern it matches, its name, the handler it
/// runs, whether the time the request took is logged, and whether the body
/// is read as JSON (of at most `MAX_BODY_LENGTH` bytes) before the handler.
pub struct Route {
    pub method: HttpMethod,
    pub path: &'static str,
    pub name: &'static str,
    pub handler: Handler,
    pub timed: bool,
    pub parses_json: bool,
}

/// The route has exactly these parts.
pub open spec fn route_is(
    r: Route,
    method: HttpMethod,
    path: Seq<char>,
    name: Seq<char>,
    handler: Handler,
    timed: bool,
    parses_json: bool,
) -> bool {
    &&& r.method == method
    &&& r.path@ == path
    &&& r.name@ == name
    &&& r.handler == handler
    &&& r.timed == timed
    &&& r.parses_json == parses_json
}

/// The routes of the server, in the order they are registered: `GET /` and
/// `GET /hello` answer "Hello World" (the second one timed), `GET /:query`
/// echoes the path (timed), and `POST /` reads a JSON body and answers with a
/// JSON document.
pub fn routes() -> (rs: Vec<Route>)
    ensures
        rs.len() == 4,
        route_is(rs[0], HttpMethod::Get, "/"@, "root"@, Handler::HelloWorld, false, false),
        route_is(rs[1], HttpMethod::Get, "/hello"@, "hello"@, Handler::HelloWorld, true, false),
        route_is(rs[2], HttpMethod::Get, "/:query"@, "query"@, Handler::Query, true, false),
        route_is(rs[3], HttpMethod::Post, "/"@, "body"@, Handler::Body, false, true),
        rs[0].method == HttpMethod::Get && rs[0].path@ == "/"@ && rs[0].name@ == "root"@ && rs[0].handler
            == Handler::HelloWorld && !rs[0].timed && !rs[0].parses_json,
        rs[1].method == HttpMethod::Get && rs[1].path@ == "/hello"@ && rs[1].name@ == "hello"@ && rs[1].handler
            == Handler::HelloWorld && rs[1].timed && !rs[1].parses_json,
        rs[2].method == HttpMethod::Get && rs[2].path@ == "/:query"@ && rs[2].name@ == "query"@ && rs[2].handler
            == Handler::Query && rs[2].timed && !rs[2].parses_json,
        rs[3].method == HttpMethod::Post && rs[3].path@ == "/"@ && rs[3].name@ == "body"@ && rs[3].handler
            == Handler::Body && !rs[3].timed && rs[3].parses_json,
{
    let mut rs: Vec<Route> = Vec::new();
    rs.push(
        Route {
            method: HttpMethod::Get,
            path: "/",
            name: "root",
            handler: Handler::HelloWorld,
            timed: false,
            parses_json: false,
        },
    );
    rs.push(
        Route {
            method: HttpMethod::Get,
            path: "/hello",
            name: "hello",
            handler: Handler::HelloWorld,
            timed: true,
            parses_json: false,
        },
    );
    rs.push(
        Route {
            method: HttpMethod::Get,
            path: "/:query",
            name: "query",
            handler: Handler::Query,
            timed: true,
            parses_json: false,
        },
    );
    rs.push(
        Route {
            method: HttpMethod::Post,
            path: "/",
            name: "body",
            handler: Handler::Body,
            timed: false,
            parses_json: true,
        },
    );
    rs
}

/// The address the server listens on: `host:port`.
pub open spec fn listen_address_spec(host: Seq<char>, port: int) -> Seq<char> {
    host + ":"@ + signed_decimal(port)
}

/// The address the server listens on: the host, a colon and the port in
/// decimal.
pub fn listen_address(host: &str, port: i64) -> (addr: String)
    ensures
        addr@ == listen_address_spec(host@, port as int),
        addr@ == host@ + ":"@ + signed_decimal(port as int),
{
    let mut addr = host.to_string();
    addr.append(":");
    push_signed_decimal(&mut addr, port);
    addr
}

/// The listening address is the host, then a colon, then text that reads
/// back as the port, whatever the host and port.
pub proof fn lemma_listen_address_parts(host: Seq<char>, port: int)
    ensures
        listen_address_spec(host, port).len() > host.len() + 1,
        listen_address_spec(host, port).subrange(0, host.len() as int) == host,
        listen_address_spec(host, port)[host.len() as int] == ':',
        signed_value(listen_address_spec(host, port).subrange(host.len() as int + 1, listen_address_spec(host, port).len() as int))
            == port,
{
    reveal_strlit(":");
    lemma_signed_decimal_round_trip(port);
    let a = listen_address_spec(host, port);
    assert(a.subrange(0, host.len() as int) =~= host);
    assert(a.subrange(host.len() as int + 1, a.len() as int) =~= signed_decimal(port));
}

} // verus!
