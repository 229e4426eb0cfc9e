//! REST handlers. Every handler opens a connection to the daemon's control
//! socket, dispatches the matching wire verb, and answers with a JSON
//! envelope: `{"ok": true, "data": ...}` on success and
//! `{"ok": false, "error": {"code", "message", "exit_code"}}` on failure.
//!
//! There is no in-process fallback: the handlers assume the daemon is
//! running. If the socket is unreachable the handler answers 503.
//!
//! The outside work (the socket, the wire call, decoding a body into the
//! protocol's types) is done by the caller; [`flow::Flow`] holds every
//! decision a handler makes between those steps.

pub mod agent;
pub mod daemon;
pub mod flow;
pub mod plugin;
pub mod subject;
pub mod workflows;

use vstd::prelude::*;
use vstd::string::*;

use crate::json::{entries_map, lemma_entries_map_push, field, integer_of, keys, string_of, JsonValue};

verus! {

/// The HTTP statuses the handlers answer with.
#[derive(Debug, Clone, Copy, PartialEq, Eq, Structural)]
pub enum Status {
    /// 200
    Success,
    /// 400
    BadRequest,
    /// 501
    NotImplemented,
    /// 502
    BadGateway,
    /// 503
    ServiceUnavailable,
}

/// The numeric code of a status.
pub open spec fn status_code(status: Status) -> u16 {
    match status {
        Status::Success => 200,
        Status::BadRequest => 400,
        Status::NotImplemented => 501,
        Status::BadGateway => 502,
        Status::ServiceUnavailable => 503,
    }
}

impl Status {
    /// The numeric HTTP code of this status.
    pub fn code(&self) -> (code: u16)
        ensures
            code == status_code(*self),
    {
        match self {
            Status::Success => 200,
            Status::BadRequest => 400,
            Status::NotImplemented => 501,
            Status::BadGateway => 502,
            Status::ServiceUnavailable => 503,
        }
    }
}

/// What a handler answers: a status and a JSON body.
#[derive(Debug, PartialEq)]
pub struct Reply {
    pub status: Status,
    pub body: JsonValue,
}

/// `env` is the success envelope `{"ok": true, "data": data}`.
pub open spec fn is_ok_envelope(env: JsonValue, data: JsonValue) -> bool {
    &&& env is Object
    &&& keys(env) == set!["ok"@, "data"@]
    &&& field(env, "ok"@) == Some(JsonValue::Bool(true))
    &&& field(env, "data"@) == Some(data)
}

/// `env` is the error envelope
/// `{"ok": false, "error": {"code": code, "message": message, "exit_code": exit_code}}`.
pub open spec fn is_error_envelope(
    env: JsonValue,
    code: Seq<char>,
    message: Seq<char>,
    exit_code: int,
) -> bool {
    &&& env is Object
    &&& keys(env) == set!["ok"@, "error"@]
    &&& field(env, "ok"@) == Some(JsonValue::Bool(false))
    &&& field(env, "error"@) matches Some(error) && {
        &&& error is Object
        &&& keys(error) == set!["code"@, "message"@, "exit_code"@]
        &&& field(error, "code"@) matches Some(c) && string_of(c) == Some(code)
        &&& field(error, "message"@) matches Some(m) && string_of(m) == Some(message)
        &&& field(error, "exit_code"@) matches Some(x) && integer_of(x) == Some(exit_code)
    }
}

/// `reply` answers `status` with the error envelope of the given parts.
pub open spec fn is_error_reply(
    reply: Reply,
    status: Status,
    code: Seq<char>,
    message: Seq<char>,
    exit_code: int,
) -> bool {
    reply.status == status && is_error_envelope(reply.body, code, message, exit_code)
}

/// `reply` answers 200 with the success envelope of `data`.
pub open spec fn is_ok_reply(reply: Reply, data: JsonValue) -> bool {
    reply.status == Status::Success && is_ok_envelope(reply.body, data)
}

/// The reply to a wire call's outcome: 200 with the value, or 502 with the
/// daemon's error message.
pub open spec fn is_wire_reply(reply: Reply, outcome: Result<JsonValue, String>) -> bool {
    match outcome {
        Ok(value) => is_ok_reply(reply, value),
        Err(error) => is_error_reply(reply, Status::BadGateway, "wire_error"@, error@, 1),
    }
}

/// The reply to input the handler refuses.
pub open spec fn is_invalid_input_reply(reply: Reply, message: Seq<char>) -> bool {
    is_error_reply(reply, Status::BadRequest, "invalid_input"@, message, 2)
}

/// The message of the reply given when the control socket is unreachable.
pub open spec fn unreachable_message(socket_path: Seq<char>, error: Seq<char>) -> Seq<char> {
    "could not reach animus daemon at "@ + socket_path + ": "@ + error
}

/// The `ok` flag of an envelope.
pub open spec fn ok_flag(env: JsonValue) -> Option<bool> {
    match field(env, "ok"@) {
        Some(JsonValue::Bool(b)) => Some(b),
        _ => None,
    }
}

/// A reply whose envelope says `ok: true` exactly when its status is 200.
pub open spec fn is_consistent_reply(reply: Reply) -> bool {
    ok_flag(reply.body) == Some(reply.status == Status::Success)
}

/// Build the standard success envelope (`{"ok": true, "data": ...}`).
pub fn ok_envelope(data: JsonValue) -> (env: JsonValue)
    ensures
        is_ok_envelope(env, data),
        field(env, "data"@) == Some(data),
        field(env, "ok"@) == Some(JsonValue::Bool(true)),
{
    let ghost d = data;
    let mut entries: Vec<(String, JsonValue)> = Vec::new();
    let ghost s0 = entries@;
    entries.push((String::from_str("ok"), JsonValue::Bool(true)));
    let ghost s1 = entries@;
    entries.push((String::from_str("data"), data));
    proof {
        reveal_strlit("ok");
        reveal_strlit("data");
        lemma_entries_map_push(s0, s1.last());
        lemma_entries_map_push(s1, entries@.last());
        assert(s0.push(s1.last()) == s1);
        assert(s1.push(entries@.last()) == entries@);
        assert(entries_map(entries@).dom() =~= set!["ok"@, "data"@]);
        assert("ok"@.len() != "data"@.len());
        assert(entries_map(entries@)["ok"@] == JsonValue::Bool(true));
        assert(entries_map(entries@)["data"@] == d);
    }
    JsonValue::Object(entries)
}

/// Build the standard error envelope.
pub fn error_envelope(code: String, message: String, exit_code: i32) -> (env: JsonValue)
    ensures
        is_error_envelope(env, code@, message@, exit_code as int),
        field(env, "ok"@) == Some(JsonValue::Bool(false)),
        field(env, "error"@) matches Some(error) && string_of(field(error, "code"@).unwrap())
            == Some(code@) && string_of(field(error, "message"@).unwrap()) == Some(message@)
            && integer_of(field(error, "exit_code"@).unwrap()) == Some(exit_code as int),
{
    let mut inner: Vec<(String, JsonValue)> = Vec::new();
    let ghost t0 = inner@;
    inner.push((String::from_str("code"), JsonValue::String(code)));
    let ghost t1 = inner@;
    inner.push((String::from_str("message"), JsonValue::String(message)));
    let ghost t2 = inner@;
    inner.push((String::from_str("exit_code"), JsonValue::from_i32(exit_code)));
    let ghost t3 = inner@;
    let ghost inner_v = inner;
    let error = JsonValue::Object(inner);
    let ghost err = error;
    let mut entries: Vec<(String, JsonValue)> = Vec::new();
    let ghost s0 = entries@;
    entries.push((String::from_str("ok"), JsonValue::Bool(false)));
    let ghost s1 = entries@;
    entries.push((String::from_str("error"), error));
    proof {
        reveal_strlit("ok");
        reveal_strlit("error");
        reveal_strlit("code");
        reveal_strlit("message");
        reveal_strlit("exit_code");
        lemma_entries_map_push(s0, s1.last());
        lemma_entries_map_push(s1, entries@.last());
        assert(s0.push(s1.last()) == s1);
        assert(s1.push(entries@.last()) == entries@);
        assert(entries_map(entries@).dom() =~= set!["ok"@, "error"@]);
        assert("ok"@.len() != "error"@.len());
        assert(entries_map(entries@)["ok"@] == JsonValue::Bool(false));
        assert(entries_map(entries@)["error"@] == err);
        lemma_entries_map_push(t0, t1.last());
        lemma_entries_map_push(t1, t2.last());
        lemma_entries_map_push(t2, t3.last());
        assert(t0.push(t1.last()) == t1);
        assert(t1.push(t2.last()) == t2);
        assert(t2.push(t3.last()) == t3);
        assert(entries_map(t3).dom() =~= set!["code"@, "message"@, "exit_code"@]);
        assert("code"@.len() != "message"@.len());
        assert("code"@.len() != "exit_code"@.len());
        assert("message"@.len() != "exit_code"@.len());
        assert(err == JsonValue::Object(inner_v));
    }
    JsonValue::Object(entries)
}

/// The error reply of the given parts.
pub(crate) fn error_reply(status: Status, code: &str, message: String, exit_code: i32) -> (reply: Reply)
    ensures
        is_error_reply(reply, status, code@, message@, exit_code as int),
{
    Reply { status, body: error_envelope(String::from_str(code), message, exit_code) }
}

/// The 400 reply to input the handler refuses.
pub fn invalid_input(message: String) -> (reply: Reply)
    ensures
        is_invalid_input_reply(reply, message@),
{
    error_reply(Status::BadRequest, "invalid_input", message, 2)
}

/// Convert the outcome of a wire call into the reply. Uses 200 on success and
/// 502 with the daemon's error message on failure.
pub fn wire_response(result: Result<JsonValue, String>) -> (reply: Reply)
    ensures
        is_wire_reply(reply, result),
        result matches Ok(v) ==> reply.status == Status::Success && field(reply.body, "data"@)
            == Some(v) && field(reply.body, "ok"@) == Some(JsonValue::Bool(true)),
        result is Err ==> reply.status == Status::BadGateway && field(reply.body, "ok"@) == Some(
            JsonValue::Bool(false),
        ),
{
    match result {
        Ok(value) => Reply { status: Status::Success, body: ok_envelope(value) },
        Err(error) => error_reply(Status::BadGateway, "wire_error", error, 1),
    }
}

/// Decide on the outcome of connecting to the control socket at
/// `socket_path`: keep the connection, or answer 503 naming the socket and
/// the error.
pub fn connect<C>(socket_path: &str, attempt: Result<C, String>) -> (res: Result<C, Reply>)
    ensures
        match attempt {
            Ok(client) => res == Ok::<C, Reply>(client),
            Err(error) => res matches Err(reply) && is_error_reply(
                reply,
                Status::ServiceUnavailable,
                "daemon_unreachable"@,
                unreachable_message(socket_path@, error@),
                20,
            ),
        },
{
    match attempt {
        Ok(client) => Ok(client),
        Err(error) => {
            let mut message = String::from_str("could not reach animus daemon at ");
            message.append(socket_path);
            message.append(": ");
            message.append(error.as_str());
            Err(error_reply(Status::ServiceUnavailable, "daemon_unreachable", message, 20))
        },
    }
}

/// Every error reply whose status is not 200 says `ok: false`, so its
/// envelope agrees with its status.
pub proof fn law_error_reply_is_consistent(
    reply: Reply,
    status: Status,
    code: Seq<char>,
    message: Seq<char>,
    exit_code: int,
)
    requires
        is_error_reply(reply, status, code, message, exit_code),
        status != Status::Success,
    ensures
        is_consistent_reply(reply),
{
}

/// The success envelope holds the data it was given, unchanged, whatever
/// kind of JSON value it is, beside `ok: true`.
pub proof fn law_ok_envelope_keeps_data(env: JsonValue, data: JsonValue)
    requires
        is_ok_envelope(env, data),
    ensures
        field(env, "data"@) == Some(data),
        field(env, "ok"@) == Some(JsonValue::Bool(true)),
{
}

/// A successful wire call is answered 200 with exactly the value the daemon
/// returned as the envelope's data, whatever kind of JSON value it is; a
/// failed one 502 with `ok: false`.
pub proof fn law_wire_success_answers_its_value(reply: Reply, outcome: Result<JsonValue, String>)
    requires
        is_wire_reply(reply, outcome),
    ensures
        outcome matches Ok(v) ==> reply.status == Status::Success && field(reply.body, "data"@)
            == Some(v),
        outcome is Err ==> reply.status == Status::BadGateway && field(reply.body, "ok"@)
            == Some(JsonValue::Bool(false)),
{
}

/// The error envelope holds `ok: false` and, under `error`, the code, the
/// message and the exit code it was given, unchanged.
pub proof fn law_error_envelope_keeps_its_parts(
    env: JsonValue,
    code: Seq<char>,
    message: Seq<char>,
    exit_code: int,
)
    requires
        is_error_envelope(env, code, message, exit_code),
    ensures
        field(env, "ok"@) == Some(JsonValue::Bool(false)),
        field(env, "error"@) matches Some(error) && string_of(field(error, "code"@).unwrap())
            == Some(code) && string_of(field(error, "message"@).unwrap()) == Some(message)
            && integer_of(field(error, "exit_code"@).unwrap()) == Some(exit_code),
{
}

/// A refusal of the input says `ok: false` with status 400, so its
/// envelope agrees with its status.
pub proof fn law_invalid_input_is_consistent(reply: Reply, message: Seq<char>)
    requires
        is_invalid_input_reply(reply, message),
    ensures
        is_consistent_reply(reply),
{
}

/// Every success reply says `ok: true` and has status 200.
pub proof fn law_ok_reply_is_consistent(reply: Reply, data: JsonValue)
    requires
        is_ok_reply(reply, data),
    ensures
        is_consistent_reply(reply),
{
}

/// The reply to a wire call's outcome agrees with its status.
pub proof fn law_wire_reply_is_consistent(reply: Reply, outcome: Result<JsonValue, String>)
    requires
        is_wire_reply(reply, outcome),
    ensures
        is_consistent_reply(reply),
{
}

} // verus!
