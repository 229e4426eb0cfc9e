//! `/api/v1/subject/{plugin}/call`: a thin wrapper over `plugin/call` so
//! HTTP clients can target a subject backend by name without building the
//! full plugin call request themselves. Subject-specific routing lives in
//! the daemon.

use vstd::prelude::*;
use vstd::string::*;

use crate::handlers::flow::{Plan, WireCall};
use crate::handlers::{invalid_input, is_invalid_input_reply};
use crate::json::JsonValue;

verus! {

/// The body of a subject call. Absent `params` are JSON `null`.
#[derive(Debug)]
pub struct SubjectCallBody {
    pub method: String,
    pub params: JsonValue,
}

/// The message refusing a subject call without a method.
pub open spec fn missing_method_message() -> Seq<char> {
    "subject call requires a `method` field"@
}

/// `POST /subject/{plugin}/call`: call `method` of plugin `plugin` with
/// `params`; a call with an empty method is refused.
pub fn call(plugin: String, body: SubjectCallBody) -> (plan: Plan)
    ensures
        body.method@.len() == 0 ==> (plan matches Err(reply) && is_invalid_input_reply(
            reply,
            missing_method_message(),
        )),
        body.method@.len() != 0 ==> plan == Ok::<WireCall, crate::handlers::Reply>(
            WireCall::PluginCall { name: plugin, method: body.method, params: body.params },
        ),
{
    if body.method.as_str().is_empty() {
        return Err(invalid_input(String::from_str("subject call requires a `method` field")));
    }
    Ok(WireCall::PluginCall { name: plugin, method: body.method, params: body.params })
}

} // verus!
