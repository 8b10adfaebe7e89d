//! Properties that hold across calls of the registry.
use vstd::prelude::*;
use serde_json::Value;
use crate::json::json_text;
use crate::registry::{invocation_reply, Registry};
use crate::reply::{json_headers, ReplyView};

verus! {

/// A registered command, invoked with arguments on which its handler succeeds, is
/// answered with status 200, the JSON headers, and the JSON text of a value that
/// the handler returned.
pub proof fn lemma_registered_command_succeeds<H: Fn(Value) -> Result<Value, String>>(
    registry: &Registry<H>,
    name: Seq<char>,
    args: Value,
    r: ReplyView,
)
    requires
        registry@.contains_key(name),
        forall|o: Result<Value, String>| call_ensures(registry@[name], (args,), o) ==> o is Ok,
        invocation_reply(registry@, name, args, r),
    ensures
        r.status == 200,
        r.headers == json_headers(),
        exists|v: Value| call_ensures(registry@[name], (args,), Ok(v)) && r.body == json_text(v),
{
    let o = choose|o: Result<Value, String>|
        crate::registry::dispatch_outcome(registry@, name, args, o) && r == crate::registry::outcome_reply(o);
    assert(o is Ok);
    let v = o->Ok_0;
    assert(call_ensures(registry@[name], (args,), Ok(v)) && r.body == json_text(v));
}

/// Invoking a command whose handler gives one outcome per argument value twice
/// with the same arguments gives the same reply.
pub proof fn lemma_pure_command_idempotent<H: Fn(Value) -> Result<Value, String>>(
    registry: &Registry<H>,
    name: Seq<char>,
    args: Value,
    r1: ReplyView,
    r2: ReplyView,
)
    requires
        registry@.contains_key(name),
        forall|o1: Result<Value, String>, o2: Result<Value, String>|
            call_ensures(registry@[name], (args,), o1) && call_ensures(registry@[name], (args,), o2) ==> o1 == o2,
        invocation_reply(registry@, name, args, r1),
        invocation_reply(registry@, name, args, r2),
    ensures
        r1 == r2,
{
}

} // verus!
