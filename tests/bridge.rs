use dev_invoke::adapter::{finish_command, run_command};
use dev_invoke::bridge::{handle, proxy_reply, proxy_route, read_payload, screen, Completion, Method, ProxyStep};
use dev_invoke::registry::{Registry, RegistryError};
use dev_invoke::reply::Reply;
use serde_json::Value;

type Handler = fn(Value) -> Result<Value, String>;

fn add_args(args: &Value) -> Result<(i64, i64), String> {
    let a = args.get("a").and_then(Value::as_i64);
    let b = args.get("b").and_then(Value::as_i64);
    match (a, b) {
        (Some(a), Some(b)) => Ok((a, b)),
        _ => Err("expected integers `a` and `b`".to_string()),
    }
}

fn add(args: Value) -> Result<Value, String> {
    let sum = run_command("add", add_args(&args), |(a, b): (i64, i64)| a + b)?;
    finish_command("add", Ok(Value::from(sum)))
}

fn echo(args: Value) -> Result<Value, String> {
    Ok(args)
}

fn refuse(_args: Value) -> Result<Value, String> {
    Err("say \"no\"".to_string())
}

fn registry() -> Registry<Handler> {
    let mut r: Registry<Handler> = Registry::new();
    assert!(r.register("add".to_string(), add as Handler).is_ok());
    assert!(r.register("echo".to_string(), echo as Handler).is_ok());
    assert!(r.register("refuse".to_string(), refuse as Handler).is_ok());
    r
}

fn header_pairs(r: &Reply) -> Vec<(&str, &str)> {
    r.headers.iter().map(|(n, v)| (n.as_str(), v.as_str())).collect()
}

fn json_headers() -> Vec<(&'static str, &'static str)> {
    vec![("Content-Type", "application/json"), ("Access-Control-Allow-Origin", "*")]
}

fn post(registry: &Registry<Handler>, body: &str) -> Reply {
    handle(registry, &Method::Post, Ok(body.to_string()))
}

#[test]
fn registered_command_returns_result() {
    let r = post(&registry(), r#"{"cmd":"add","args":{"a":2,"b":3}}"#);
    assert_eq!(r.status, 200);
    assert_eq!(r.body, "5");
    assert_eq!(header_pairs(&r), json_headers());
    let decoded: i64 = serde_json::from_str(&r.body).unwrap();
    assert_eq!(decoded, 5);
}

#[test]
fn registered_command_result_is_json_text() {
    let r = post(&registry(), r#"{"cmd":"echo","args":{"k":[1,true,null]}}"#);
    assert_eq!(r.status, 200);
    assert_eq!(r.body, r#"{"k":[1,true,null]}"#);
}

#[test]
fn unknown_command_is_500() {
    let reg = registry();
    let r = reg.invoke("nonexistent", Value::Object(serde_json::Map::new()));
    assert_eq!(r.status, 500);
    assert_eq!(r.body, r#"{"error":"Unknown command: nonexistent"}"#);
    assert_eq!(header_pairs(&r), json_headers());
    let d = reg.dispatch("nonexistent", Value::Null);
    assert_eq!(d, Err("Unknown command: nonexistent".to_string()));
}

#[test]
fn options_is_preflight() {
    let r = handle(&registry(), &Method::Options, Err("never read".to_string()));
    assert_eq!(r.status, 200);
    assert_eq!(r.body, "");
    assert_eq!(
        header_pairs(&r),
        vec![
            ("Access-Control-Allow-Origin", "*"),
            ("Access-Control-Allow-Methods", "POST, OPTIONS"),
            ("Access-Control-Allow-Headers", "Content-Type"),
        ]
    );
}

#[test]
fn get_is_not_allowed() {
    let r = handle(&registry(), &Method::Other, Ok(String::new()));
    assert_eq!(r.status, 405);
    assert_eq!(r.body, "Method not allowed");
    assert!(r.headers.is_empty());
    assert!(screen(&Method::Post).is_none());
}

#[test]
fn malformed_body_is_400() {
    let r = post(&registry(), "not json");
    assert_eq!(r.status, 400);
    assert!(r.body.contains("Invalid JSON"));
}

#[test]
fn missing_cmd_is_400() {
    let r = post(&registry(), r#"{"args":{}}"#);
    assert_eq!(r.status, 400);
    assert_eq!(r.body, "Invalid JSON: missing field `cmd`");
    let r = post(&registry(), r#"{"cmd":7}"#);
    assert_eq!(r.status, 400);
    assert!(r.body.starts_with("Invalid JSON: "));
}

#[test]
fn unreadable_body_is_400() {
    let r = handle(&registry(), &Method::Post, Err("connection reset".to_string()));
    assert_eq!(r.status, 400);
    assert_eq!(r.body, "Failed to read body: connection reset");
}

#[test]
fn omitted_args_are_null() {
    let p = read_payload(r#"{"cmd":"echo"}"#).ok().unwrap();
    assert_eq!(p.cmd, "echo");
    assert_eq!(p.args, Value::Null);
    let r = post(&registry(), r#"{"cmd":"echo"}"#);
    assert_eq!(r.status, 200);
    assert_eq!(r.body, "null");
}

#[test]
fn handler_error_is_500_with_escaped_message() {
    let r = post(&registry(), r#"{"cmd":"refuse","args":{}}"#);
    assert_eq!(r.status, 500);
    assert_eq!(r.body, r#"{"error":"say \"no\""}"#);
}

#[test]
fn bad_arguments_name_the_command() {
    let r = post(&registry(), r#"{"cmd":"add","args":{"a":"x"}}"#);
    assert_eq!(r.status, 500);
    let v: Value = serde_json::from_str(&r.body).unwrap();
    assert_eq!(
        v["error"].as_str().unwrap(),
        "Failed to deserialize arguments for add: expected integers `a` and `b`"
    );
}

#[test]
fn encode_failure_names_the_command() {
    let r = finish_command("now", Err("not representable".to_string()));
    assert_eq!(r, Err("Failed to serialize result for now: not representable".to_string()));
    assert_eq!(finish_command("now", Ok(Value::Bool(true))), Ok(Value::Bool(true)));
}

#[test]
fn duplicate_name_is_refused() {
    let mut r = registry();
    let e = r.register("add".to_string(), echo as Handler);
    assert!(matches!(e, Err(RegistryError::DuplicateName(ref n)) if n == "add"));
    assert!(r.contains("add"));
    assert!(!r.contains("missing"));
    assert!(r.lookup("missing").is_none());
    assert_eq!(post(&r, r#"{"cmd":"add","args":{"a":1,"b":1}}"#).body, "2");
}

#[test]
fn proxy_without_surface_is_503() {
    match proxy_route(&Method::Post, Ok(r#"{"cmd":"add","args":{}}"#.to_string()), false) {
        ProxyStep::Answer(r) => {
            assert_eq!(r.status, 503);
            assert_eq!(r.body, r#"{"error":"No webview available yet"}"#);
            assert_eq!(header_pairs(&r), json_headers());
        }
        ProxyStep::Forward(_) => panic!("forwarded without a surface"),
    }
}

#[test]
fn proxy_with_surface_forwards() {
    match proxy_route(&Method::Post, Ok(r#"{"cmd":"add","args":{"a":1}}"#.to_string()), true) {
        ProxyStep::Forward(p) => {
            assert_eq!(p.cmd, "add");
            assert_eq!(p.args["a"], Value::from(1));
        }
        ProxyStep::Answer(_) => panic!("answered with a surface live"),
    }
}

#[test]
fn proxy_timeout_names_command() {
    let r = proxy_reply("greet", Completion::TimedOut);
    assert_eq!(r.status, 500);
    assert_eq!(r.body, r#"{"error":"Timeout waiting for command: greet"}"#);
}

#[test]
fn proxy_delivered_outcomes() {
    let r = proxy_reply("greet", Completion::Delivered(Ok("\"hi\"".to_string())));
    assert_eq!(r.status, 200);
    assert_eq!(r.body, "\"hi\"");
    let r = proxy_reply("greet", Completion::Delivered(Err("boom".to_string())));
    assert_eq!(r.status, 500);
    assert_eq!(r.body, r#"{"error":"boom"}"#);
}

#[test]
fn pure_command_is_idempotent() {
    let reg = registry();
    let body = r#"{"cmd":"add","args":{"a":20,"b":22}}"#;
    let first = post(&reg, body);
    let second = post(&reg, body);
    assert_eq!(first.status, 200);
    assert_eq!(first.body, "42");
    assert_eq!(first.body, second.body);
    assert_eq!(first.status, second.status);
}

#[test]
fn registry_from_list() {
    let list: Vec<(String, Handler)> = vec![("add".to_string(), add as Handler), ("echo".to_string(), echo as Handler)];
    let reg = match Registry::from_list(list) {
        Ok(r) => r,
        Err(_) => panic!("distinct names were refused"),
    };
    assert!(reg.contains("add") && reg.contains("echo"));
    assert_eq!(reg.dispatch("add", serde_json::from_str(r#"{"a":1,"b":2}"#).unwrap()), Ok(Value::from(3)));
    let twice: Vec<(String, Handler)> = vec![
        ("add".to_string(), add as Handler),
        ("echo".to_string(), echo as Handler),
        ("add".to_string(), echo as Handler),
    ];
    assert!(matches!(Registry::from_list(twice), Err(RegistryError::DuplicateName(ref n)) if n == "add"));
}
