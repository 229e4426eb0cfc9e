//! `/api/v1/agent/*` handlers.

use vstd::prelude::*;

use crate::handlers::flow::{Plan, WireCall};
use crate::handlers::Reply;
use crate::json::JsonValue;

verus! {

/// `POST /agent/run`: run an agent with the request the client sent.
pub fn run(body: JsonValue) -> (plan: Plan)
    ensures
        plan == Ok::<WireCall, Reply>(WireCall::AgentRun { body }),
{
    Ok(WireCall::AgentRun { body })
}

/// `GET /agent/{id}`: the status of an agent run.
pub fn status(id: String) -> (plan: Plan)
    ensures
        plan == Ok::<WireCall, Reply>(WireCall::AgentStatus { id }),
{
    Ok(WireCall::AgentStatus { id })
}

/// `POST /agent/{id}/cancel`: cancel the agent session `id`.
pub fn cancel(id: String) -> (plan: Plan)
    ensures
        plan == Ok::<WireCall, Reply>(WireCall::AgentCancel { session_id: id }),
{
    Ok(WireCall::AgentCancel { session_id: id })
}

} // verus!
