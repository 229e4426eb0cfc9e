//! `/api/v1/workflows/*` handlers.

use vstd::prelude::*;
use vstd::string::*;

use crate::handlers::flow::{Plan, WireCall};
use crate::handlers::{invalid_input, is_invalid_input_reply, Reply};
use crate::json::{entries_map, kind_name, JsonValue};

verus! {

/// The query of `GET /workflows`.
#[derive(Debug, Default)]
pub struct ListQuery {
    pub status: Option<String>,
    pub cursor: Option<String>,
    pub limit: Option<u32>,
}

/// `GET /workflows`: list workflows, filtered by status and paged by cursor
/// and limit as the query asks. The status text is decoded into the
/// protocol's status when the call is made.
pub fn list(q: ListQuery) -> (plan: Plan)
    ensures
        plan == Ok::<WireCall, Reply>(
            WireCall::WorkflowList { status: q.status, cursor: q.cursor, limit: q.limit },
        ),
{
    Ok(WireCall::WorkflowList { status: q.status, cursor: q.cursor, limit: q.limit })
}

/// The message refusing a workflow status that does not decode.
pub open spec fn status_error_message(status: Seq<char>, error: Seq<char>) -> Seq<char> {
    "invalid status `"@ + status + "`: "@ + error
}

/// The message refusing `status`, which failed to decode with `error`.
pub fn invalid_status(status: &str, error: &str) -> (message: String)
    ensures
        message@ == status_error_message(status@, error@),
{
    let mut message = String::from_str("invalid status `");
    message.append(status);
    message.append("`: ");
    message.append(error);
    message
}

/// `GET /workflows/{id}`: workflow `id`.
pub fn get(id: String) -> (plan: Plan)
    ensures
        plan == Ok::<WireCall, Reply>(WireCall::WorkflowGet { id }),
{
    Ok(WireCall::WorkflowGet { id })
}

/// The body of `POST /workflows/run`. Absent `definition` is `None`, absent
/// `params` JSON `null`.
#[derive(Debug)]
pub struct RunBody {
    pub task_id: String,
    pub definition: Option<String>,
    pub params: JsonValue,
}

/// The entries of a run's parameters: none for `null`, an object's own
/// entries, nothing for any other value.
pub open spec fn param_entries(value: JsonValue) -> Option<Seq<(String, JsonValue)>> {
    match value {
        JsonValue::Null => Some(Seq::empty()),
        JsonValue::Object(entries) => Some(entries@),
        _ => None,
    }
}

/// The message refusing parameters of the given kind.
pub open spec fn params_error_message(kind: Seq<char>) -> Seq<char> {
    "`params` must be a JSON object, got "@ + kind
}

/// The parameter map of a run: `null` is the empty map, an object its own
/// entries; any other value is refused, naming its kind.
pub fn value_to_param_map(value: JsonValue) -> (res: Result<Vec<(String, JsonValue)>, String>)
    ensures
        match param_entries(value) {
            Some(entries) => res matches Ok(params) && params@ == entries,
            None => res matches Err(message) && message@ == params_error_message(kind_name(value)),
        },
        value matches JsonValue::Object(entries) ==> (res matches Ok(params) && params@
            == entries@),
        value is Null ==> (res matches Ok(params) && params@.len() == 0),
{
    match value {
        JsonValue::Null => Ok(Vec::new()),
        JsonValue::Object(entries) => Ok(entries),
        other => {
            let message = String::from_str("`params` must be a JSON object, got ");
            Err(message.concat(other.kind()))
        },
    }
}

/// The parameters of an object are exactly its entries: as many, each one
/// unchanged and in place, so they build the same map; `null` gives no
/// parameters.
pub proof fn law_object_params_are_its_entries(
    entries: Vec<(String, JsonValue)>,
    params: Seq<(String, JsonValue)>,
)
    requires
        param_entries(JsonValue::Object(entries)) == Some(params),
    ensures
        params.len() == entries@.len(),
        forall|i: int| 0 <= i < entries@.len() ==> #[trigger] params[i] == entries@[i],
        entries_map(params) == entries_map(entries@),
{
}

/// `null` parameters are the empty map.
pub proof fn law_null_params_are_empty(params: Seq<(String, JsonValue)>)
    requires
        param_entries(JsonValue::Null) == Some(params),
    ensures
        params.len() == 0,
{
}

/// `POST /workflows/run`: run task `task_id` with the given parameters;
/// parameters that are not an object (or `null`) are refused.
pub fn run(body: RunBody) -> (plan: Plan)
    ensures
        match param_entries(body.params) {
            Some(entries) => plan matches Ok(WireCall::WorkflowRun { task_id, definition, params })
                && task_id == body.task_id && definition == body.definition && params@ == entries,
            None => plan matches Err(reply) && is_invalid_input_reply(
                reply,
                params_error_message(kind_name(body.params)),
            ),
        },
        body.params matches JsonValue::Object(entries) ==> (plan matches Ok(
            WireCall::WorkflowRun { task_id, definition, params },
        ) && task_id == body.task_id && definition == body.definition && params@ == entries@),
        body.params is Null ==> (plan matches Ok(WireCall::WorkflowRun { params, .. })
            && params@.len() == 0),
{
    match value_to_param_map(body.params) {
        Ok(params) => Ok(
            WireCall::WorkflowRun { task_id: body.task_id, definition: body.definition, params },
        ),
        Err(message) => Err(invalid_input(message)),
    }
}

/// `POST /workflows/{id}/pause`: pause workflow `id`.
pub fn pause(id: String) -> (plan: Plan)
    ensures
        plan == Ok::<WireCall, Reply>(WireCall::WorkflowPause { id }),
{
    Ok(WireCall::WorkflowPause { id })
}

/// The optional body of `POST /workflows/{id}/resume`.
#[derive(Debug, Default)]
pub struct ResumeBody {
    pub feedback: Option<String>,
}

/// `POST /workflows/{id}/resume`: resume workflow `id`, with the feedback
/// of the body if there is one.
pub fn resume(id: String, body: Option<ResumeBody>) -> (plan: Plan)
    ensures
        plan == Ok::<WireCall, Reply>(
            WireCall::WorkflowResume {
                id,
                feedback: match body {
                    Some(b) => b.feedback,
                    None => None,
                },
            },
        ),
{
    let feedback = match body {
        Some(b) => b.feedback,
        None => None,
    };
    Ok(WireCall::WorkflowResume { id, feedback })
}

/// `POST /workflows/{id}/cancel`: cancel workflow `id`, giving no reason.
pub fn cancel(id: String) -> (plan: Plan)
    ensures
        plan == Ok::<WireCall, Reply>(WireCall::WorkflowCancel { id, reason: None }),
{
    Ok(WireCall::WorkflowCancel { id, reason: None })
}

} // verus!
