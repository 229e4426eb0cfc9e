//! `/api/v1/plugin/*` handlers.

use vstd::prelude::*;

use crate::handlers::flow::{opt_text, Plan, WireCall};
use crate::handlers::Reply;
use crate::json::JsonValue;

verus! {

/// The query of `GET /plugin/list`.
#[derive(Debug, Default)]
pub struct ListQuery {
    pub kind: Option<String>,
}

/// `GET /plugin/list`: the installed plugins, of one kind if the query
/// names it, without warnings.
pub fn list(q: ListQuery) -> (plan: Plan)
    ensures
        plan == Ok::<WireCall, Reply>(
            WireCall::PluginList { kind: q.kind, include_warnings: false },
        ),
{
    Ok(WireCall::PluginList { kind: q.kind, include_warnings: false })
}

/// `GET /plugin/{name}`: what is known of plugin `name`.
pub fn info(name: String) -> (plan: Plan)
    ensures
        plan == Ok::<WireCall, Reply>(WireCall::PluginInfo { name }),
{
    Ok(WireCall::PluginInfo { name })
}

/// `POST /plugin/install`: install with the request the client sent.
pub fn install(body: JsonValue) -> (plan: Plan)
    ensures
        plan == Ok::<WireCall, Reply>(WireCall::PluginInstall { body }),
{
    Ok(WireCall::PluginInstall { body })
}

/// `DELETE /plugin/{name}`: uninstall plugin `name`.
pub fn uninstall(name: String) -> (plan: Plan)
    ensures
        plan == Ok::<WireCall, Reply>(WireCall::PluginUninstall { name }),
{
    Ok(WireCall::PluginUninstall { name })
}

/// `POST /plugin/{name}/ping`: ping plugin `name`.
pub fn ping(name: String) -> (plan: Plan)
    ensures
        plan == Ok::<WireCall, Reply>(WireCall::PluginPing { name }),
{
    Ok(WireCall::PluginPing { name })
}

/// `POST /plugin/call`: call a plugin with the request the client sent.
pub fn call(body: JsonValue) -> (plan: Plan)
    ensures
        plan == Ok::<WireCall, Reply>(WireCall::PluginCallBody { body }),
{
    Ok(WireCall::PluginCallBody { body })
}

/// The query of `GET /plugin/search`.
#[derive(Debug, Default)]
pub struct SearchQuery {
    pub query: Option<String>,
    pub kind: Option<String>,
    pub tag: Option<String>,
}

/// `GET /plugin/search`: search the registry; no query text searches for
/// the empty text.
pub fn search(q: SearchQuery) -> (plan: Plan)
    ensures
        plan matches Ok(WireCall::PluginSearch { query, kind, tag }) && {
            &&& query@ == match opt_text(q.query) {
                Some(t) => t,
                None => Seq::<char>::empty(),
            }
            &&& kind == q.kind
            &&& tag == q.tag
        },
{
    let query = match q.query {
        Some(t) => t,
        None => String::new(),
    };
    Ok(WireCall::PluginSearch { query, kind: q.kind, tag: q.tag })
}

/// The query of `GET /plugin/browse`. An absent flag is false.
#[derive(Debug, Default)]
pub struct BrowseQuery {
    pub kind: Option<String>,
    pub installed: bool,
    pub available: bool,
}

/// `GET /plugin/browse`: browse the plugins by kind and state.
pub fn browse(q: BrowseQuery) -> (plan: Plan)
    ensures
        plan == Ok::<WireCall, Reply>(
            WireCall::PluginBrowse { kind: q.kind, installed: q.installed, available: q.available },
        ),
{
    Ok(WireCall::PluginBrowse { kind: q.kind, installed: q.installed, available: q.available })
}

/// `POST /plugin/update`: update with the request the client sent.
pub fn update(body: JsonValue) -> (plan: Plan)
    ensures
        plan == Ok::<WireCall, Reply>(WireCall::PluginUpdate { body }),
{
    Ok(WireCall::PluginUpdate { body })
}

} // verus!
