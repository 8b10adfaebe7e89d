//! The parts of a command adapter that do not depend on the command's types: the
//! adapter decodes a JSON object into the command's named arguments, runs the
//! command, and encodes its result as JSON.
use vstd::prelude::*;
use vstd::string::*;
use serde_json::Value;

verus! {

/// The message of arguments that do not fit a command's declared parameters.
pub open spec fn decode_failure(name: Seq<char>, cause: Seq<char>) -> Seq<char> {
    "Failed to deserialize arguments for "@ + name + ": "@ + cause
}

/// The message of a result that cannot be written as JSON.
pub open spec fn encode_failure(name: Seq<char>, cause: Seq<char>) -> Seq<char> {
    "Failed to serialize result for "@ + name + ": "@ + cause
}

/// Runs `command` on its decoded arguments, or reports why they did not decode.
pub fn run_command<A, R, F: Fn(A) -> R>(name: &str, decoded: Result<A, String>, command: F) -> (r: Result<R, String>)
    requires
        forall|a: A| call_requires(command, (a,)),
    ensures
        decoded is Err ==> r is Err && r->Err_0@ == decode_failure(name@, decoded->Err_0@),
        decoded is Ok ==> r is Ok && call_ensures(command, (decoded->Ok_0,), r->Ok_0),
{
    match decoded {
        Ok(args) => Ok(command(args)),
        Err(cause) => {
            let message = String::from_str("Failed to deserialize arguments for ").concat(name).concat(": ").concat(
                cause.as_str(),
            );
            Err(message)
        },
    }
}

/// The adapter's answer from its command's encoded result, or from why it could
/// not be encoded.
pub fn finish_command(name: &str, encoded: Result<Value, String>) -> (r: Result<Value, String>)
    ensures
        encoded is Ok ==> r == encoded,
        encoded is Err ==> r is Err && r->Err_0@ == encode_failure(name@, encoded->Err_0@),
{
    match encoded {
        Ok(v) => Ok(v),
        Err(cause) => {
            let message = String::from_str("Failed to serialize result for ").concat(name).concat(": ").concat(
                cause.as_str(),
            );
            Err(message)
        },
    }
}

} // verus!
