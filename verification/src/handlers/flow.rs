//! The course of one request through a handler.
//!
//! A handler first connects to the daemon's control socket, then makes its
//! decision on the request (build the wire call, or refuse the input), then
//! performs the wire call and answers with its outcome. The outside work is
//! done by the caller; [`Flow::step`] takes each outcome as an [`Event`] and
//! says what to do next as an [`Action`].

use vstd::prelude::*;

use crate::handlers::{
    connect, invalid_input, is_consistent_reply, is_error_reply, is_invalid_input_reply,
    is_wire_reply, law_error_reply_is_consistent, law_invalid_input_is_consistent,
    law_wire_reply_is_consistent, unreachable_message, wire_response, Reply, Status,
};
use crate::handlers::workflows::{invalid_status, status_error_message};
use crate::json::JsonValue;

verus! {

/// A wire verb of the daemon's control protocol, with its request.
///
/// Where the protocol's request is decoded from JSON that the client sent
/// (`body`), or a workflow status is decoded from its text, the decoding is
/// done by whoever performs the call; a failure is reported back as
/// [`Event::Undecodable`].
#[derive(Debug, PartialEq)]
pub enum WireCall {
    AgentRun { body: JsonValue },
    AgentStatus { id: String },
    AgentCancel { session_id: String },
    DaemonStatus,
    DaemonHealth,
    DaemonAgents,
    DaemonLogs { limit: usize },
    PluginList { kind: Option<String>, include_warnings: bool },
    PluginInfo { name: String },
    PluginInstall { body: JsonValue },
    PluginUninstall { name: String },
    PluginPing { name: String },
    PluginCall { name: String, method: String, params: JsonValue },
    PluginCallBody { body: JsonValue },
    PluginSearch { query: String, kind: Option<String>, tag: Option<String> },
    PluginBrowse { kind: Option<String>, installed: bool, available: bool },
    PluginUpdate { body: JsonValue },
    WorkflowList { status: Option<String>, cursor: Option<String>, limit: Option<u32> },
    WorkflowGet { id: String },
    WorkflowRun { task_id: String, definition: Option<String>, params: Vec<(String, JsonValue)> },
    WorkflowPause { id: String },
    WorkflowResume { id: String, feedback: Option<String> },
    WorkflowCancel { id: String, reason: Option<String> },
}

/// A handler's decision on its request once connected: the wire call to
/// make, or the reply refusing the input.
pub type Plan = Result<WireCall, Reply>;

/// The workflow status text that a call decodes, if any.
pub open spec fn decoded_status(call: WireCall) -> Option<Seq<char>> {
    match call {
        WireCall::WorkflowList { status: Some(s), .. } => Some(s@),
        _ => None,
    }
}

/// The text of an optional string.
pub open spec fn opt_text(s: Option<String>) -> Option<Seq<char>> {
    match s {
        Some(t) => Some(t@),
        None => None,
    }
}

/// The message of the reply given when the call cannot be decoded.
pub open spec fn undecodable_message(status: Option<Seq<char>>, error: Seq<char>) -> Seq<char> {
    match status {
        Some(s) => status_error_message(s, error),
        None => error,
    }
}

impl WireCall {
    /// The workflow status text this call decodes, if any.
    pub fn status_text(&self) -> (text: Option<String>)
        ensures
            opt_text(text) == decoded_status(*self),
    {
        match self {
            WireCall::WorkflowList { status: Some(s), .. } => Some(s.clone()),
            _ => None,
        }
    }
}

/// Where a request stands.
#[derive(Debug, PartialEq)]
pub enum Flow {
    /// Waiting for the outcome of connecting to the control socket.
    Connecting { socket_path: String, plan: Plan },
    /// Waiting for the outcome of the wire call; `status_text` is the
    /// workflow status text the call decodes, if any.
    Calling { status_text: Option<String> },
    /// Answered.
    Finished,
}

/// The outcome of a piece of outside work.
#[derive(Debug, PartialEq)]
pub enum Event {
    /// Connecting to the control socket succeeded, or failed with an error.
    Connection { outcome: Result<(), String> },
    /// The call's JSON could not be decoded into the protocol's request.
    Undecodable { error: String },
    /// The wire call returned a value, or failed with the daemon's error.
    Returned { result: Result<JsonValue, String> },
}

/// What to do next.
#[derive(Debug, PartialEq)]
pub enum Action {
    /// Connect to the control socket.
    Connect,
    /// Perform this wire call.
    Call { call: WireCall },
    /// Answer the request with this reply.
    Respond { reply: Reply },
    /// Nothing: the event was not one this stage waits for.
    Wait,
}

/// One step of a request: from `flow`, `event` leads to `next` with `action`.
pub open spec fn step_relation(flow: Flow, event: Event, next: Flow, action: Action) -> bool {
    match flow {
        Flow::Connecting { socket_path, plan } => match event {
            Event::Connection { outcome: Err(error) } => {
                &&& next is Finished
                &&& action matches Action::Respond { reply } && is_error_reply(
                    reply,
                    Status::ServiceUnavailable,
                    "daemon_unreachable"@,
                    unreachable_message(socket_path@, error@),
                    20,
                )
            },
            Event::Connection { outcome: Ok(_) } => match plan {
                Err(reply) => next is Finished && action == Action::Respond { reply },
                Ok(call) => {
                    &&& next matches Flow::Calling { status_text } && opt_text(status_text)
                        == decoded_status(call)
                    &&& action == Action::Call { call }
                },
            },
            _ => next == flow && action is Wait,
        },
        Flow::Calling { status_text } => match event {
            Event::Undecodable { error } => {
                &&& next is Finished
                &&& action matches Action::Respond { reply } && is_invalid_input_reply(
                    reply,
                    undecodable_message(opt_text(status_text), error@),
                )
            },
            Event::Returned { result: outcome } => {
                &&& next is Finished
                &&& action matches Action::Respond { reply } && is_wire_reply(reply, outcome)
            },
            _ => next == flow && action is Wait,
        },
        Flow::Finished => next is Finished && action is Wait,
    }
}

/// A flow whose pending refusal, if any, agrees with its status.
pub open spec fn flow_consistent(flow: Flow) -> bool {
    match flow {
        Flow::Connecting { plan: Err(reply), .. } => is_consistent_reply(reply),
        _ => true,
    }
}

impl Flow {
    /// Begin a request: connect to the socket at `socket_path`, and, once
    /// connected, carry out `plan`.
    pub fn start(socket_path: String, plan: Plan) -> (res: (Flow, Action))
        ensures
            res.0 == (Flow::Connecting { socket_path, plan }),
            res.1 is Connect,
    {
        (Flow::Connecting { socket_path, plan }, Action::Connect)
    }

    /// Take the outcome of a piece of outside work and say what to do next.
    pub fn step(self, event: Event) -> (res: (Flow, Action))
        ensures
            step_relation(self, event, res.0, res.1),
    {
        match self {
            Flow::Connecting { socket_path, plan } => match event {
                Event::Connection { outcome } => match connect(socket_path.as_str(), outcome) {
                    Err(reply) => (Flow::Finished, Action::Respond { reply }),
                    Ok(()) => match plan {
                        Err(reply) => (Flow::Finished, Action::Respond { reply }),
                        Ok(call) => {
                            let status_text = call.status_text();
                            (Flow::Calling { status_text }, Action::Call { call })
                        },
                    },
                },
                other => (Flow::Connecting { socket_path, plan }, Action::Wait),
            },
            Flow::Calling { status_text } => match event {
                Event::Undecodable { error } => {
                    let message = match &status_text {
                        Some(s) => invalid_status(s.as_str(), error.as_str()),
                        None => error,
                    };
                    (Flow::Finished, Action::Respond { reply: invalid_input(message) })
                },
                Event::Returned { result: outcome } => (
                    Flow::Finished,
                    Action::Respond { reply: wire_response(outcome) },
                ),
                other => (Flow::Calling { status_text }, Action::Wait),
            },
            Flow::Finished => (Flow::Finished, Action::Wait),
        }
    }
}

/// When the control socket is unreachable, the request is answered 503 with
/// a `daemon_unreachable` envelope naming the socket and the error, whatever
/// the handler planned, a refusal of the input included: no handler judges
/// its input before it has reached the daemon.
pub proof fn law_unreachable_daemon_answers_503(
    socket_path: String,
    plan: Plan,
    error: String,
    next: Flow,
    action: Action,
)
    requires
        step_relation(
            Flow::Connecting { socket_path, plan },
            Event::Connection { outcome: Err(error) },
            next,
            action,
        ),
    ensures
        next is Finished,
        action matches Action::Respond { reply } && reply.status == Status::ServiceUnavailable
            && is_error_reply(
            reply,
            Status::ServiceUnavailable,
            "daemon_unreachable"@,
            unreachable_message(socket_path@, error@),
            20,
        ),
{
}

/// Once connected, a refused input is answered with the refusal itself, and
/// the daemon is not called.
pub proof fn law_refusal_is_answered_without_a_call(
    socket_path: String,
    refusal: Reply,
    next: Flow,
    action: Action,
)
    requires
        step_relation(
            Flow::Connecting { socket_path, plan: Err(refusal) },
            Event::Connection { outcome: Ok(()) },
            next,
            action,
        ),
    ensures
        next is Finished,
        action == (Action::Respond { reply: refusal }),
{
}

/// Once connected, the planned wire call is made exactly as planned, and
/// its outcome is what the request is answered with: 200 and the value, or
/// 502 and the daemon's error.
pub proof fn law_planned_call_is_made_and_answered(
    socket_path: String,
    call: WireCall,
    outcome: Result<JsonValue, String>,
    calling: Flow,
    first: Action,
    done: Flow,
    second: Action,
)
    requires
        step_relation(
            Flow::Connecting { socket_path, plan: Ok(call) },
            Event::Connection { outcome: Ok(()) },
            calling,
            first,
        ),
        step_relation(calling, Event::Returned { result: outcome }, done, second),
    ensures
        first == (Action::Call { call }),
        done is Finished,
        second matches Action::Respond { reply } && is_wire_reply(reply, outcome),
{
}

/// A call that cannot be decoded is refused with 400; the message is the
/// decoder's, prefixed for a workflow status that does not decode.
pub proof fn law_undecodable_call_is_refused(
    socket_path: String,
    call: WireCall,
    error: String,
    calling: Flow,
    first: Action,
    done: Flow,
    second: Action,
)
    requires
        step_relation(
            Flow::Connecting { socket_path, plan: Ok(call) },
            Event::Connection { outcome: Ok(()) },
            calling,
            first,
        ),
        step_relation(calling, Event::Undecodable { error }, done, second),
    ensures
        done is Finished,
        second matches Action::Respond { reply } && is_invalid_input_reply(
            reply,
            undecodable_message(decoded_status(call), error@),
        ),
{
}

/// Every reply a request is answered with says `ok: true` exactly when its
/// status is 200, provided the handler's own refusal does; and each step
/// keeps that so.
pub proof fn law_replies_agree_with_status(flow: Flow, event: Event, next: Flow, action: Action)
    requires
        flow_consistent(flow),
        step_relation(flow, event, next, action),
    ensures
        flow_consistent(next),
        action matches Action::Respond { reply } ==> is_consistent_reply(reply),
{
    match flow {
        Flow::Connecting { socket_path, plan } => match event {
            Event::Connection { outcome: Err(error) } => {
                let reply = action->reply;
                law_error_reply_is_consistent(
                    reply,
                    Status::ServiceUnavailable,
                    "daemon_unreachable"@,
                    unreachable_message(socket_path@, error@),
                    20,
                );
            },
            _ => {},
        },
        Flow::Calling { status_text } => match event {
            Event::Undecodable { error } => {
                law_invalid_input_is_consistent(
                    action->reply,
                    undecodable_message(opt_text(status_text), error@),
                );
            },
            Event::Returned { result: outcome } => {
                law_wire_reply_is_consistent(action->reply, outcome);
            },
            _ => {},
        },
        Flow::Finished => {},
    }
}

/// A request is answered at most once: answering finishes it, and a
/// finished request does nothing more.
pub proof fn law_answer_finishes_request(flow: Flow, event: Event, next: Flow, action: Action)
    requires
        step_relation(flow, event, next, action),
    ensures
        action is Respond ==> next is Finished,
        flow is Finished ==> next is Finished && action is Wait,
{
}

/// A request is answered at least once: the outcome of connecting leads to
/// an answer or to the call, and the outcome of the call to an answer. Any
/// other event changes nothing.
pub proof fn law_expected_events_move_on(flow: Flow, event: Event, next: Flow, action: Action)
    requires
        step_relation(flow, event, next, action),
    ensures
        flow is Connecting && event is Connection ==> action is Respond || action is Call,
        flow is Calling && !(event is Connection) ==> action is Respond,
        (flow is Connecting && !(event is Connection)) || (flow is Calling && event is Connection)
            ==> next == flow && action is Wait,
{
}

} // verus!
