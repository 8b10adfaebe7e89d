//! HTTP replies of the bridge: status, body and headers.
use vstd::prelude::*;
use vstd::string::*;
use crate::json::{json_quoted, quote};

verus! {

/// A reply as written back to the HTTP client.
pub struct Reply {
    pub status: u16,
    pub body: String,
    pub headers: Vec<(String, String)>,
}

/// The mathematical value of a [`Reply`].
pub struct ReplyView {
    pub status: u16,
    pub body: Seq<char>,
    pub headers: Seq<(Seq<char>, Seq<char>)>,
}

pub open spec fn header_view(h: (String, String)) -> (Seq<char>, Seq<char>) {
    (h.0@, h.1@)
}

impl View for Reply {
    type V = ReplyView;

    open spec fn view(&self) -> ReplyView {
        ReplyView {
            status: self.status,
            body: self.body@,
            headers: self.headers@.map_values(|h: (String, String)| header_view(h)),
        }
    }
}

/// The headers of a CORS preflight reply.
pub open spec fn preflight_headers() -> Seq<(Seq<char>, Seq<char>)> {
    seq![
        ("Access-Control-Allow-Origin"@, "*"@),
        ("Access-Control-Allow-Methods"@, "POST, OPTIONS"@),
        ("Access-Control-Allow-Headers"@, "Content-Type"@),
    ]
}

/// The headers of every reply whose body is JSON.
pub open spec fn json_headers() -> Seq<(Seq<char>, Seq<char>)> {
    seq![("Content-Type"@, "application/json"@), ("Access-Control-Allow-Origin"@, "*"@)]
}

/// The JSON object `{"error":<message>}`.
pub open spec fn error_body(message: Seq<char>) -> Seq<char> {
    "{\"error\":"@ + json_quoted(message) + "}"@
}

pub open spec fn preflight_reply() -> ReplyView {
    ReplyView { status: 200, body: Seq::empty(), headers: preflight_headers() }
}

pub open spec fn not_allowed_reply() -> ReplyView {
    ReplyView { status: 405, body: "Method not allowed"@, headers: Seq::empty() }
}

pub open spec fn unreadable_reply(cause: Seq<char>) -> ReplyView {
    ReplyView { status: 400, body: "Failed to read body: "@ + cause, headers: Seq::empty() }
}

pub open spec fn invalid_json_reply(cause: Seq<char>) -> ReplyView {
    ReplyView { status: 400, body: "Invalid JSON: "@ + cause, headers: Seq::empty() }
}

pub open spec fn success_reply(body: Seq<char>) -> ReplyView {
    ReplyView { status: 200, body, headers: json_headers() }
}

pub open spec fn failure_reply(message: Seq<char>) -> ReplyView {
    ReplyView { status: 500, body: error_body(message), headers: json_headers() }
}

pub open spec fn unavailable_reply() -> ReplyView {
    ReplyView {
        status: 503,
        body: "{\"error\":\"No webview available yet\"}"@,
        headers: json_headers(),
    }
}

fn header(name: &str, value: &str) -> (r: (String, String))
    ensures
        header_view(r) == (name@, value@),
{
    (String::from_str(name), String::from_str(value))
}

fn json_header_list() -> (r: Vec<(String, String)>)
    ensures
        r@.map_values(|h: (String, String)| header_view(h)) == json_headers(),
{
    let mut r: Vec<(String, String)> = Vec::new();
    r.push(header("Content-Type", "application/json"));
    r.push(header("Access-Control-Allow-Origin", "*"));
    assert(r@.map_values(|h: (String, String)| header_view(h)) =~= json_headers());
    r
}

/// The reply to a CORS preflight (`OPTIONS`) request.
pub fn preflight() -> (r: Reply)
    ensures
        r@ == preflight_reply(),
{
    let mut headers: Vec<(String, String)> = Vec::new();
    headers.push(header("Access-Control-Allow-Origin", "*"));
    headers.push(header("Access-Control-Allow-Methods", "POST, OPTIONS"));
    headers.push(header("Access-Control-Allow-Headers", "Content-Type"));
    let r = Reply { status: 200, body: String::new(), headers };
    assert(r@.headers =~= preflight_headers());
    assert(r@.body =~= Seq::<char>::empty());
    r
}

/// The reply to a request whose method is neither `POST` nor `OPTIONS`.
pub fn method_not_allowed() -> (r: Reply)
    ensures
        r@ == not_allowed_reply(),
{
    let r = Reply { status: 405, body: String::from_str("Method not allowed"), headers: Vec::new() };
    assert(r@.headers =~= Seq::<(Seq<char>, Seq<char>)>::empty());
    r
}

/// The reply to a request whose body could not be read.
pub fn unreadable_body(cause: &str) -> (r: Reply)
    ensures
        r@ == unreadable_reply(cause@),
{
    let body = String::from_str("Failed to read body: ").concat(cause);
    let r = Reply { status: 400, body, headers: Vec::new() };
    assert(r@.headers =~= Seq::<(Seq<char>, Seq<char>)>::empty());
    r
}

/// The reply to a request whose body is no invocation payload.
pub fn invalid_json(cause: &str) -> (r: Reply)
    ensures
        r@ == invalid_json_reply(cause@),
{
    let body = String::from_str("Invalid JSON: ").concat(cause);
    let r = Reply { status: 400, body, headers: Vec::new() };
    assert(r@.headers =~= Seq::<(Seq<char>, Seq<char>)>::empty());
    r
}

/// The reply carrying a command's JSON result.
pub fn success(body: String) -> (r: Reply)
    ensures
        r@ == success_reply(body@),
{
    Reply { status: 200, body, headers: json_header_list() }
}

/// The reply carrying a failure message as `{"error":<message>}`.
pub fn failure(message: &str) -> (r: Reply)
    ensures
        r@ == failure_reply(message@),
{
    let body = String::from_str("{\"error\":").concat(quote(message).as_str()).concat("}");
    Reply { status: 500, body, headers: json_header_list() }
}

/// The reply given when no UI surface can take a proxied command.
pub fn unavailable() -> (r: Reply)
    ensures
        r@ == unavailable_reply(),
{
    Reply {
        status: 503,
        body: String::from_str("{\"error\":\"No webview available yet\"}"),
        headers: json_header_list(),
    }
}

} // verus!
