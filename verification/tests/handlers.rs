use animus_transport_http::handlers::flow::{Action, Event, Flow, WireCall};
use animus_transport_http::handlers::subject::SubjectCallBody;
use animus_transport_http::handlers::workflows::{ResumeBody, RunBody};
use animus_transport_http::handlers::{
    agent, connect, daemon, error_envelope, invalid_input, ok_envelope, plugin, subject,
    wire_response, workflows, Reply, Status,
};
use animus_transport_http::json::{JsonNumber, JsonValue};

fn s(t: &str) -> String {
    t.to_string()
}

fn field<'a>(value: &'a JsonValue, key: &str) -> Option<&'a JsonValue> {
    match value {
        JsonValue::Object(entries) => entries.iter().rev().find(|(k, _)| k == key).map(|(_, v)| v),
        _ => None,
    }
}

fn text(value: Option<&JsonValue>) -> Option<String> {
    match value {
        Some(JsonValue::String(t)) => Some(t.clone()),
        _ => None,
    }
}

fn assert_error(reply: &Reply, status: Status, code: &str, message: &str, exit_code: i64) {
    assert_eq!(reply.status, status);
    assert_eq!(field(&reply.body, "ok"), Some(&JsonValue::Bool(false)));
    let error = field(&reply.body, "error").expect("error field");
    assert_eq!(text(field(error, "code")), Some(s(code)));
    assert_eq!(text(field(error, "message")), Some(s(message)));
    let exit = match field(error, "exit_code") {
        Some(JsonValue::Number(JsonNumber::PosInt(n))) => *n as i64,
        Some(JsonValue::Number(JsonNumber::NegInt(n))) => *n,
        other => panic!("exit_code is {:?}", other),
    };
    assert_eq!(exit, exit_code);
}

#[test]
fn ok_envelope_holds_flag_and_data() {
    let env = ok_envelope(JsonValue::String(s("hello")));
    assert_eq!(field(&env, "ok"), Some(&JsonValue::Bool(true)));
    assert_eq!(field(&env, "data"), Some(&JsonValue::String(s("hello"))));
    match &env {
        JsonValue::Object(entries) => assert_eq!(entries.len(), 2),
        other => panic!("not an object: {:?}", other),
    }
}

#[test]
fn error_envelope_holds_its_parts() {
    let env = error_envelope(s("wire_error"), s("boom"), 1);
    let reply = Reply { status: Status::BadGateway, body: env };
    assert_error(&reply, Status::BadGateway, "wire_error", "boom", 1);
}

#[test]
fn error_envelope_negative_exit_code() {
    let env = error_envelope(s("x"), s("y"), -3);
    let error = field(&env, "error").unwrap();
    assert_eq!(field(error, "exit_code"), Some(&JsonValue::Number(JsonNumber::NegInt(-3))));
}

#[test]
fn status_codes() {
    assert_eq!(Status::Success.code(), 200);
    assert_eq!(Status::BadRequest.code(), 400);
    assert_eq!(Status::NotImplemented.code(), 501);
    assert_eq!(Status::BadGateway.code(), 502);
    assert_eq!(Status::ServiceUnavailable.code(), 503);
}

#[test]
fn wire_response_success_is_200() {
    let reply = wire_response(Ok(JsonValue::Bool(true)));
    assert_eq!(reply.status, Status::Success);
    assert_eq!(field(&reply.body, "ok"), Some(&JsonValue::Bool(true)));
    assert_eq!(field(&reply.body, "data"), Some(&JsonValue::Bool(true)));
}

#[test]
fn wire_response_failure_is_502() {
    let reply = wire_response(Err(s("daemon said no")));
    assert_error(&reply, Status::BadGateway, "wire_error", "daemon said no", 1);
}

#[test]
fn connect_keeps_the_client() {
    let res: Result<u8, Reply> = connect("/run/animus.sock", Ok(7u8));
    assert_eq!(res, Ok(7u8));
}

#[test]
fn connect_failure_is_503() {
    let res: Result<u8, Reply> = connect("/run/animus.sock", Err(s("connection refused")));
    let reply = res.unwrap_err();
    assert_error(
        &reply,
        Status::ServiceUnavailable,
        "daemon_unreachable",
        "could not reach animus daemon at /run/animus.sock: connection refused",
        20,
    );
}

#[test]
fn invalid_input_is_400() {
    let reply = invalid_input(s("bad body"));
    assert_error(&reply, Status::BadRequest, "invalid_input", "bad body", 2);
}

#[test]
fn clear_logs_is_not_implemented() {
    let reply = daemon::clear_logs();
    assert_error(
        &reply,
        Status::NotImplemented,
        "not_implemented",
        "daemon/logs DELETE not yet wired over control RPC",
        21,
    );
}

#[test]
fn json_kinds() {
    assert_eq!(JsonValue::Null.kind(), "null");
    assert_eq!(JsonValue::Bool(false).kind(), "boolean");
    assert_eq!(JsonValue::Number(JsonNumber::PosInt(1)).kind(), "number");
    assert_eq!(JsonValue::String(s("a")).kind(), "string");
    assert_eq!(JsonValue::Array(vec![]).kind(), "array");
    assert_eq!(JsonValue::Object(vec![]).kind(), "object");
}

#[test]
fn json_from_i32() {
    assert_eq!(JsonValue::from_i32(20), JsonValue::Number(JsonNumber::PosInt(20)));
    assert_eq!(JsonValue::from_i32(0), JsonValue::Number(JsonNumber::PosInt(0)));
    assert_eq!(JsonValue::from_i32(i32::MIN), JsonValue::Number(JsonNumber::NegInt(i32::MIN as i64)));
}

#[test]
fn agent_plans() {
    assert_eq!(agent::run(JsonValue::Null), Ok(WireCall::AgentRun { body: JsonValue::Null }));
    assert_eq!(agent::status(s("a1")), Ok(WireCall::AgentStatus { id: s("a1") }));
    assert_eq!(agent::cancel(s("a1")), Ok(WireCall::AgentCancel { session_id: s("a1") }));
}

#[test]
fn daemon_plans() {
    assert_eq!(daemon::status(), Ok(WireCall::DaemonStatus));
    assert_eq!(daemon::health(), Ok(WireCall::DaemonHealth));
    assert_eq!(daemon::agents(), Ok(WireCall::DaemonAgents));
}

#[test]
fn logs_default_limit_is_200() {
    assert_eq!(daemon::logs(daemon::LogsQuery { limit: None }), Ok(WireCall::DaemonLogs { limit: 200 }));
}

#[test]
fn logs_limit_from_query() {
    assert_eq!(daemon::logs(daemon::LogsQuery { limit: Some(5) }), Ok(WireCall::DaemonLogs { limit: 5 }));
}

#[test]
fn plugin_list_never_asks_for_warnings() {
    let plan = plugin::list(plugin::ListQuery { kind: Some(s("subject")) });
    assert_eq!(plan, Ok(WireCall::PluginList { kind: Some(s("subject")), include_warnings: false }));
}

#[test]
fn plugin_name_plans() {
    assert_eq!(plugin::info(s("p")), Ok(WireCall::PluginInfo { name: s("p") }));
    assert_eq!(plugin::uninstall(s("p")), Ok(WireCall::PluginUninstall { name: s("p") }));
    assert_eq!(plugin::ping(s("p")), Ok(WireCall::PluginPing { name: s("p") }));
}

#[test]
fn plugin_body_plans() {
    let body = || JsonValue::Object(vec![(s("name"), JsonValue::String(s("p")))]);
    assert_eq!(plugin::install(body()), Ok(WireCall::PluginInstall { body: body() }));
    assert_eq!(plugin::call(body()), Ok(WireCall::PluginCallBody { body: body() }));
    assert_eq!(plugin::update(body()), Ok(WireCall::PluginUpdate { body: body() }));
}

#[test]
fn plugin_search_defaults_query_to_empty() {
    let plan = plugin::search(plugin::SearchQuery::default());
    assert_eq!(plan, Ok(WireCall::PluginSearch { query: s(""), kind: None, tag: None }));
    let plan = plugin::search(plugin::SearchQuery {
        query: Some(s("git")),
        kind: Some(s("tool")),
        tag: Some(s("vcs")),
    });
    assert_eq!(
        plan,
        Ok(WireCall::PluginSearch { query: s("git"), kind: Some(s("tool")), tag: Some(s("vcs")) })
    );
}

#[test]
fn plugin_browse_passes_flags() {
    let plan = plugin::browse(plugin::BrowseQuery { kind: None, installed: true, available: false });
    assert_eq!(plan, Ok(WireCall::PluginBrowse { kind: None, installed: true, available: false }));
}

#[test]
fn subject_call_wraps_plugin_call() {
    let body = SubjectCallBody { method: s("list"), params: JsonValue::Null };
    let plan = subject::call(s("github"), body);
    assert_eq!(
        plan,
        Ok(WireCall::PluginCall { name: s("github"), method: s("list"), params: JsonValue::Null })
    );
}

#[test]
fn subject_call_without_method_is_refused() {
    let body = SubjectCallBody { method: s(""), params: JsonValue::Null };
    let reply = subject::call(s("github"), body).unwrap_err();
    assert_error(&reply, Status::BadRequest, "invalid_input", "subject call requires a `method` field", 2);
}

#[test]
fn param_map_of_null_is_empty() {
    assert_eq!(workflows::value_to_param_map(JsonValue::Null), Ok(vec![]));
}

#[test]
fn param_map_of_object_is_its_entries() {
    let entries = || vec![(s("a"), JsonValue::Bool(true)), (s("b"), JsonValue::Null)];
    assert_eq!(workflows::value_to_param_map(JsonValue::Object(entries())), Ok(entries()));
}

#[test]
fn param_map_refuses_other_kinds() {
    let cases = vec![
        (JsonValue::Array(vec![]), "array"),
        (JsonValue::String(s("x")), "string"),
        (JsonValue::Number(JsonNumber::Decimal(s("1.5"))), "number"),
        (JsonValue::Bool(true), "boolean"),
    ];
    for (value, kind) in cases {
        assert_eq!(
            workflows::value_to_param_map(value),
            Err(format!("`params` must be a JSON object, got {}", kind))
        );
    }
}

#[test]
fn workflow_run_plans() {
    let body = RunBody {
        task_id: s("t1"),
        definition: Some(s("def")),
        params: JsonValue::Object(vec![(s("k"), JsonValue::String(s("v")))]),
    };
    assert_eq!(
        workflows::run(body),
        Ok(WireCall::WorkflowRun {
            task_id: s("t1"),
            definition: Some(s("def")),
            params: vec![(s("k"), JsonValue::String(s("v")))],
        })
    );
    let bad = RunBody { task_id: s("t1"), definition: None, params: JsonValue::Array(vec![]) };
    let reply = workflows::run(bad).unwrap_err();
    assert_error(&reply, Status::BadRequest, "invalid_input", "`params` must be a JSON object, got array", 2);
}

#[test]
fn workflow_id_plans() {
    assert_eq!(workflows::get(s("w")), Ok(WireCall::WorkflowGet { id: s("w") }));
    assert_eq!(workflows::pause(s("w")), Ok(WireCall::WorkflowPause { id: s("w") }));
    assert_eq!(workflows::cancel(s("w")), Ok(WireCall::WorkflowCancel { id: s("w"), reason: None }));
}

#[test]
fn workflow_list_plan() {
    let q = workflows::ListQuery { status: Some(s("running")), cursor: Some(s("c")), limit: Some(10) };
    assert_eq!(
        workflows::list(q),
        Ok(WireCall::WorkflowList { status: Some(s("running")), cursor: Some(s("c")), limit: Some(10) })
    );
}

#[test]
fn workflow_resume_feedback() {
    assert_eq!(
        workflows::resume(s("w"), Some(ResumeBody { feedback: Some(s("ok")) })),
        Ok(WireCall::WorkflowResume { id: s("w"), feedback: Some(s("ok")) })
    );
    assert_eq!(
        workflows::resume(s("w"), None),
        Ok(WireCall::WorkflowResume { id: s("w"), feedback: None })
    );
}

#[test]
fn invalid_status_message() {
    assert_eq!(workflows::invalid_status("bogus", "unknown variant"), "invalid status `bogus`: unknown variant");
}

#[test]
fn flow_unreachable_daemon_answers_503_even_for_refused_input() {
    let refusal = invalid_input(s("bad"));
    let (flow, first) = Flow::start(s("/sock"), Err(refusal));
    assert_eq!(first, Action::Connect);
    let (flow, action) = flow.step(Event::Connection { outcome: Err(s("no such file")) });
    assert_eq!(flow, Flow::Finished);
    match action {
        Action::Respond { reply } => assert_error(
            &reply,
            Status::ServiceUnavailable,
            "daemon_unreachable",
            "could not reach animus daemon at /sock: no such file",
            20,
        ),
        other => panic!("unexpected {:?}", other),
    }
}

#[test]
fn flow_refusal_without_call() {
    let (flow, _) = Flow::start(s("/sock"), Err(invalid_input(s("bad"))));
    let (flow, action) = flow.step(Event::Connection { outcome: Ok(()) });
    assert_eq!(flow, Flow::Finished);
    assert_eq!(action, Action::Respond { reply: invalid_input(s("bad")) });
}

#[test]
fn flow_call_and_answer() {
    let (flow, _) = Flow::start(s("/sock"), daemon::health());
    let (flow, action) = flow.step(Event::Connection { outcome: Ok(()) });
    assert_eq!(action, Action::Call { call: WireCall::DaemonHealth });
    assert_eq!(flow, Flow::Calling { status_text: None });
    let (flow, action) = flow.step(Event::Returned { result: Ok(JsonValue::Bool(true)) });
    assert_eq!(flow, Flow::Finished);
    assert_eq!(action, Action::Respond { reply: wire_response(Ok(JsonValue::Bool(true))) });
}

#[test]
fn flow_call_failure_is_502() {
    let (flow, _) = Flow::start(s("/sock"), daemon::status());
    let (flow, _) = flow.step(Event::Connection { outcome: Ok(()) });
    let (_, action) = flow.step(Event::Returned { result: Err(s("timeout")) });
    match action {
        Action::Respond { reply } => assert_error(&reply, Status::BadGateway, "wire_error", "timeout", 1),
        other => panic!("unexpected {:?}", other),
    }
}

#[test]
fn flow_undecodable_status() {
    let q = workflows::ListQuery { status: Some(s("bogus")), cursor: None, limit: None };
    let (flow, _) = Flow::start(s("/sock"), workflows::list(q));
    let (flow, _) = flow.step(Event::Connection { outcome: Ok(()) });
    assert_eq!(flow, Flow::Calling { status_text: Some(s("bogus")) });
    let (_, action) = flow.step(Event::Undecodable { error: s("unknown variant `bogus`") });
    match action {
        Action::Respond { reply } => assert_error(
            &reply,
            Status::BadRequest,
            "invalid_input",
            "invalid status `bogus`: unknown variant `bogus`",
            2,
        ),
        other => panic!("unexpected {:?}", other),
    }
}

#[test]
fn flow_undecodable_body() {
    let (flow, _) = Flow::start(s("/sock"), agent::run(JsonValue::Null));
    let (flow, _) = flow.step(Event::Connection { outcome: Ok(()) });
    let (_, action) = flow.step(Event::Undecodable { error: s("missing field `prompt`") });
    match action {
        Action::Respond { reply } => {
            assert_error(&reply, Status::BadRequest, "invalid_input", "missing field `prompt`", 2)
        }
        other => panic!("unexpected {:?}", other),
    }
}

#[test]
fn flow_ignores_unexpected_events() {
    let (flow, _) = Flow::start(s("/sock"), daemon::agents());
    let (flow, action) = flow.step(Event::Returned { result: Ok(JsonValue::Null) });
    assert_eq!(action, Action::Wait);
    assert_eq!(flow, Flow::Connecting { socket_path: s("/sock"), plan: Ok(WireCall::DaemonAgents) });
    let (flow, _) = flow.step(Event::Connection { outcome: Ok(()) });
    let (flow, action) = flow.step(Event::Connection { outcome: Ok(()) });
    assert_eq!(action, Action::Wait);
    let (flow, _) = flow.step(Event::Returned { result: Ok(JsonValue::Null) });
    let (flow, action) = flow.step(Event::Returned { result: Ok(JsonValue::Null) });
    assert_eq!(flow, Flow::Finished);
    assert_eq!(action, Action::Wait);
}
