//! `/api/v1/daemon/*` handlers.

use vstd::prelude::*;

use crate::handlers::flow::{Plan, WireCall};
use crate::handlers::{error_reply, is_error_reply, Reply, Status};
use vstd::string::*;

verus! {

/// The daemon's status.
pub fn status() -> (plan: Plan)
    ensures
        plan == Ok::<WireCall, Reply>(WireCall::DaemonStatus),
{
    Ok(WireCall::DaemonStatus)
}

/// The daemon's health.
pub fn health() -> (plan: Plan)
    ensures
        plan == Ok::<WireCall, Reply>(WireCall::DaemonHealth),
{
    Ok(WireCall::DaemonHealth)
}

/// The agents the daemon runs.
pub fn agents() -> (plan: Plan)
    ensures
        plan == Ok::<WireCall, Reply>(WireCall::DaemonAgents),
{
    Ok(WireCall::DaemonAgents)
}

/// The query of `GET /daemon/logs`.
#[derive(Debug)]
pub struct LogsQuery {
    pub limit: Option<usize>,
}

/// The number of log lines asked for when the query names none.
pub const DEFAULT_LOGS_LIMIT: usize = 200;

/// `GET /daemon/logs`: the daemon's latest log lines, 200 unless the query
/// sets a limit.
pub fn logs(q: LogsQuery) -> (plan: Plan)
    ensures
        plan == Ok::<WireCall, Reply>(
            WireCall::DaemonLogs {
                limit: match q.limit {
                    Some(n) => n,
                    None => DEFAULT_LOGS_LIMIT,
                },
            },
        ),
{
    let limit = match q.limit {
        Some(n) => n,
        None => DEFAULT_LOGS_LIMIT,
    };
    Ok(WireCall::DaemonLogs { limit })
}

/// `DELETE /daemon/logs`: not available over the control socket, so always
/// answered 501 without contacting the daemon.
pub fn clear_logs() -> (reply: Reply)
    ensures
        is_error_reply(
            reply,
            Status::NotImplemented,
            "not_implemented"@,
            "daemon/logs DELETE not yet wired over control RPC"@,
            21,
        ),
{
    error_reply(
        Status::NotImplemented,
        "not_implemented",
        String::from_str("daemon/logs DELETE not yet wired over control RPC"),
        21,
    )
}

} // verus!
