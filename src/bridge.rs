//! Request handling of the bridge endpoint, in registry mode and in proxy mode.
use vstd::prelude::*;
use vstd::string::*;
use serde_json::Value;
use crate::json::{error_text, json_member, json_parse, json_str, json_text, member, null_value, parse_json, string_contents};
use crate::registry::{invocation_reply, Registry};
use crate::reply::{
    failure, failure_reply, invalid_json, invalid_json_reply, method_not_allowed, not_allowed_reply,
    preflight, preflight_reply, success, success_reply, unavailable, unavailable_reply, unreadable_body,
    unreadable_reply, Reply, ReplyView,
};

verus! {

/// How long a proxied command may take before the bridge gives up on it.
pub const COMPLETION_WAIT_SECS: u64 = 30;

/// The request methods that the endpoint tells apart.
pub enum Method {
    Options,
    Post,
    Other,
}

/// A request to run a command: its name and its arguments as one JSON value.
pub struct InvokePayload {
    pub cmd: String,
    pub args: Value,
}

/// The command named by a request body: the string member `cmd` of a JSON object.
pub open spec fn payload_command(text: Seq<char>) -> Option<Seq<char>> {
    match json_parse(text) {
        Some(v) => match json_member(v, "cmd"@) {
            Some(c) => json_str(c),
            None => None,
        },
        None => None,
    }
}

/// `args` are the arguments of a request body: its member `args`, or `null` where
/// it has none.
pub open spec fn payload_args(text: Seq<char>, args: Value) -> bool {
    match json_parse(text) {
        Some(v) => match json_member(v, "args"@) {
            Some(a) => args == a,
            None => json_text(args) == "null"@,
        },
        None => false,
    }
}

/// `r` is a rejection of a request body as no invocation payload.
pub open spec fn is_invalid_json_reply(r: ReplyView) -> bool {
    exists|cause: Seq<char>| r == invalid_json_reply(cause)
}

/// The reply given before any body is read, if the method alone decides it.
pub open spec fn method_reply(method: Method) -> Option<ReplyView> {
    match method {
        Method::Options => Some(preflight_reply()),
        Method::Post => None,
        Method::Other => Some(not_allowed_reply()),
    }
}

/// The message of a proxied command that did not complete in time.
pub open spec fn timeout_message(cmd: Seq<char>) -> Seq<char> {
    "Timeout waiting for command: "@ + cmd
}

/// The reply for a request method, where no body is needed: the CORS preflight
/// for `OPTIONS`, 405 for any method other than `POST`.
pub fn screen(method: &Method) -> (r: Option<Reply>)
    ensures
        r is None <==> method_reply(*method) is None,
        r is Some ==> method_reply(*method) == Some(r->Some_0@),
{
    match method {
        Method::Options => Some(preflight()),
        Method::Post => None,
        Method::Other => Some(method_not_allowed()),
    }
}

/// Reads an invocation payload `{"cmd": <string>, "args": <any>}` from a request
/// body, or the 400 reply that rejects the body.
pub fn read_payload(text: &str) -> (r: Result<InvokePayload, Reply>)
    ensures
        r is Ok <==> payload_command(text@) is Some,
        r is Ok ==> payload_command(text@) == Some(r->Ok_0.cmd@) && payload_args(text@, r->Ok_0.args),
        r is Err ==> is_invalid_json_reply(r->Err_0@),
{
    let v = match parse_json(text) {
        Ok(v) => v,
        Err(e) => {
            let cause = error_text(&e);
            return Err(invalid_json(cause.as_str()));
        },
    };
    let cmd = match member(&v, "cmd") {
        Some(c) => match string_contents(&c) {
            Some(s) => s,
            None => {
                return Err(invalid_json("invalid type for field `cmd`: expected a string"));
            },
        },
        None => {
            return Err(invalid_json("missing field `cmd`"));
        },
    };
    let args = match member(&v, "args") {
        Some(a) => a,
        None => null_value(),
    };
    Ok(InvokePayload { cmd, args })
}

/// Reads the payload of a `POST` whose body was read, or could not be.
pub fn read_body(body: Result<String, String>) -> (r: Result<InvokePayload, Reply>)
    ensures
        body is Err ==> r is Err && r->Err_0@ == unreadable_reply(body->Err_0@),
        body is Ok ==> (r is Ok <==> payload_command(body->Ok_0@) is Some),
        body is Ok && r is Ok ==> payload_command(body->Ok_0@) == Some(r->Ok_0.cmd@) && payload_args(
            body->Ok_0@,
            r->Ok_0.args,
        ),
        body is Ok && r is Err ==> is_invalid_json_reply(r->Err_0@),
{
    match body {
        Ok(text) => read_payload(text.as_str()),
        Err(cause) => Err(unreadable_body(cause.as_str())),
    }
}

/// Handles one request against a registry of commands. `body` is the request's
/// body, or why it could not be read; it is looked at only for `POST`.
pub fn handle<H: Fn(Value) -> Result<Value, String>>(
    registry: &Registry<H>,
    method: &Method,
    body: Result<String, String>,
) -> (r: Reply)
    requires
        registry.wf(),
    ensures
        method_reply(*method) is Some ==> method_reply(*method) == Some(r@),
        *method is Post && body is Err ==> r@ == unreadable_reply(body->Err_0@),
        *method is Post && body is Ok && payload_command(body->Ok_0@) is None ==> is_invalid_json_reply(r@),
        *method is Post && body is Ok && payload_command(body->Ok_0@) is Some ==> exists|args: Value|
            payload_args(body->Ok_0@, args) && invocation_reply(
                registry@,
                payload_command(body->Ok_0@)->Some_0,
                args,
                r@,
            ),
{
    if let Some(r) = screen(method) {
        return r;
    }
    match read_body(body) {
        Ok(payload) => {
            let ghost args = payload.args;
            let r = registry.invoke(payload.cmd.as_str(), payload.args);
            assert(payload_args(body->Ok_0@, args));
            r
        },
        Err(r) => r,
    }
}

/// What the proxy path does with a request: answer it at once, or forward the
/// payload to a UI surface's invoke transport.
pub enum ProxyStep {
    Answer(Reply),
    Forward(InvokePayload),
}

/// The first decision of the proxy path, for a request with its body and whether
/// any UI surface is live. Which surface takes a forwarded payload is left to the
/// host.
pub fn proxy_route(method: &Method, body: Result<String, String>, surface_live: bool) -> (r: ProxyStep)
    ensures
        method_reply(*method) is Some ==> (r matches ProxyStep::Answer(a)
            && method_reply(*method) == Some(a@)),
        *method is Post && body is Err ==> (r matches ProxyStep::Answer(a)
            && a@ == unreadable_reply(body->Err_0@)),
        *method is Post && body is Ok && payload_command(body->Ok_0@) is None ==> (r matches ProxyStep::Answer(a)
            && is_invalid_json_reply(a@)),
        *method is Post && body is Ok && payload_command(body->Ok_0@) is Some && !surface_live ==> (r matches ProxyStep::Answer(a)
            && a@ == unavailable_reply()),
        *method is Post && body is Ok && payload_command(body->Ok_0@) is Some && surface_live ==> (r matches ProxyStep::Forward(p)
            && payload_command(body->Ok_0@) == Some(p.cmd@) && payload_args(body->Ok_0@, p.args)),
{
    if let Some(r) = screen(method) {
        return ProxyStep::Answer(r);
    }
    match read_body(body) {
        Ok(payload) => {
            if surface_live {
                ProxyStep::Forward(payload)
            } else {
                ProxyStep::Answer(unavailable())
            }
        },
        Err(r) => ProxyStep::Answer(r),
    }
}

/// How a forwarded command ended: the transport delivered its result (JSON text)
/// or its error message, or nothing came within the wait.
pub enum Completion {
    Delivered(Result<String, String>),
    TimedOut,
}

/// The reply to a forwarded command `cmd`, from how it ended.
pub fn proxy_reply(cmd: &str, completion: Completion) -> (r: Reply)
    ensures
        completion matches Completion::Delivered(Ok(b)) ==> r@ == success_reply(b@),
        completion matches Completion::Delivered(Err(m)) ==> r@ == failure_reply(m@),
        completion is TimedOut ==> r@ == failure_reply(timeout_message(cmd@)),
{
    match completion {
        Completion::Delivered(Ok(body)) => success(body),
        Completion::Delivered(Err(message)) => failure(message.as_str()),
        Completion::TimedOut => {
            let message = String::from_str("Timeout waiting for command: ").concat(cmd);
            failure(message.as_str())
        },
    }
}

} // verus!
