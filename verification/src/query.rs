//! The query handlers. Configuration and the active-task listing are
//! answered from local state; task snapshots live on the upstream services,
//! so for those the handler decides which service instance to ask and hands
//! the host a ready query to forward, after checking that the task is on
//! record.

use vstd::prelude::*;

use crate::actions::{QueryPayload, UpstreamQuery};
use crate::error::AppError;
use crate::msg::{AppQueryMsg, ConfigResponse};
use crate::order::{first_after, lemma_first_after_bounds, lemma_first_after_follows,
    lemma_lex_lt_transitive, lex_lt};
use crate::state::{Config, ModuleState};

verus! {

/// How many identifiers the active-task listing returns when the caller
/// names no limit.
pub const DEFAULT_LIMIT: u32 = 50;

/// The effective page size: the caller's limit, or the default.
pub open spec fn effective_limit(limit: Option<u32>) -> int {
    match limit {
        Some(l) => l as int,
        None => DEFAULT_LIMIT as int,
    }
}

/// One query's answer.
pub enum QueryAnswer {
    /// The current configuration.
    Config(ConfigResponse),
    /// A page of registered task identifiers.
    ActiveTasks(Vec<String>),
    /// A scheduler query for the host to forward; its answer is the
    /// scheduler's snapshot, returned to the caller verbatim.
    TaskInfo(UpstreamQuery),
    /// A fund-custody query for the host to forward; its answer is the
    /// balance snapshot, returned to the caller verbatim.
    TaskBalance(UpstreamQuery),
}

/// The current configuration.
pub fn query_config(state: &ModuleState) -> (r: ConfigResponse)
    ensures
        r.config.factory_addr@ == state.config.factory_addr@,
{
    ConfigResponse { config: Config { factory_addr: state.config.factory_addr.clone() } }
}

/// Everything `query_active_tasks` promises: the next page of registered
/// identifiers in ascending identifier order, starting strictly after the
/// cursor — an exclusive bound that needs no registered entry, so paging
/// continues past an identifier that was removed meanwhile.
pub open spec fn active_tasks_post(
    pre: ModuleState,
    start_after: Option<String>,
    limit: Option<u32>,
    r: Vec<String>,
) -> bool {
    let start = pre.tasks.cursor_start(start_after);
    let avail = pre.tasks.order().len() - start;
    let lim = effective_limit(limit);
    &&& r@.len() == (if lim <= avail {
        lim
    } else {
        avail
    })
    &&& forall|i: int| 0 <= i < r@.len() ==> #[trigger] r@[i]@ == pre.tasks.order()[start + i]
    &&& forall|i: int, j: int| 0 <= i < j < r@.len() ==> lex_lt(#[trigger] r@[i]@, #[trigger] r@[j]@)
    &&& (start_after matches Some(c) ==> forall|i: int|
        0 <= i < r@.len() ==> lex_lt(c@, #[trigger] r@[i]@))
}

/// The registered task identifiers that follow the cursor, in ascending
/// identifier order, at most `limit` (by default fifty) of them.
pub fn query_active_tasks(
    state: &ModuleState,
    start_after: Option<String>,
    limit: Option<u32>,
) -> (r: Vec<String>)
    requires
        state.wf(),
    ensures
        active_tasks_post(*state, start_after, limit, r),
{
    let lim: u32 = match limit {
        Some(l) => l,
        None => DEFAULT_LIMIT,
    };
    let ghost ord = state.tasks.order();
    let ghost start = state.tasks.cursor_start(start_after);
    let r = state.tasks.page(start_after, lim as usize);
    proof {
        if start_after is Some {
            lemma_first_after_bounds(ord, start_after.unwrap()@);
            lemma_first_after_follows(ord, start_after.unwrap()@);
        }
        assert(0 <= start <= ord.len());
        assert(forall|k: int|
            0 <= k < ord.len() ==> #[trigger] ord[k] == state.tasks.entries@[k].task_hash@);
        assert forall|i: int, j: int| 0 <= i < j < r@.len() implies lex_lt(
            #[trigger] r@[i]@,
            #[trigger] r@[j]@,
        ) by {
            assert(r@[i]@ == ord[start + i] && r@[j]@ == ord[start + j]);
            assert(0 <= start + i < start + j < ord.len());
            assert(lex_lt(
                state.tasks.entries@[start + i].task_hash@,
                state.tasks.entries@[start + j].task_hash@,
            ));
        }
        if start_after is Some {
            let c = start_after.unwrap()@;
            assert forall|i: int| 0 <= i < r@.len() implies lex_lt(c, #[trigger] r@[i]@) by {
                assert(r@[i]@ == ord[start + i]);
                if i > 0 {
                    assert(lex_lt(
                        state.tasks.entries@[start].task_hash@,
                        state.tasks.entries@[start + i].task_hash@,
                    ));
                    lemma_lex_lt_transitive(c, ord[start], ord[start + i]);
                }
            }
        }
    }
    r
}

/// Everything the two snapshot queries promise: known task, resolved
/// service, and a forwarded query that names exactly the requested task.
pub open spec fn upstream_query_post(
    pre: ModuleState,
    task_hash: String,
    service_addr: Option<String>,
    r: Result<UpstreamQuery, AppError>,
    balance: bool,
) -> bool {
    let known = pre.tasks@.contains_key(task_hash@);
    match r {
        Ok(q) => match service_addr {
            Some(a) => {
                &&& known
                &&& q.contract@ == a@
                &&& if balance {
                    q.query matches QueryPayload::TaskBalance { task_hash: h } && h@ == task_hash@
                } else {
                    q.query matches QueryPayload::Task { task_hash: h } && h@ == task_hash@
                }
            },
            None => false,
        },
        Err(e) => {
            &&& ((e matches AppError::NotFound { task_hash: t } && t@ == task_hash@) <==> !known)
            &&& (e is Unresolved <==> known && service_addr is None)
            &&& ((e matches AppError::NotFound { task_hash: t } && t@ == task_hash@) || e
                is Unresolved)
        },
    }
}

/// A scheduler query for a registered task's snapshot. `tasks_addr` is the
/// host's resolution of the scheduler instance recorded for the task.
pub fn query_task_info(state: &ModuleState, task_hash: String, tasks_addr: Option<String>) -> (r:
    Result<UpstreamQuery, AppError>)
    requires
        state.wf(),
    ensures
        upstream_query_post(*state, task_hash, tasks_addr, r, false),
{
    if !state.tasks.contains(&task_hash) {
        return Err(AppError::NotFound { task_hash });
    }
    match tasks_addr {
        Some(a) => Ok(UpstreamQuery { contract: a, query: QueryPayload::Task { task_hash } }),
        None => Err(AppError::Unresolved),
    }
}

/// A fund-custody query for a registered task's balance snapshot.
/// `manager_addr` is the host's resolution of the fund-custody instance
/// recorded for the task.
pub fn query_task_balance(
    state: &ModuleState,
    task_hash: String,
    manager_addr: Option<String>,
) -> (r: Result<UpstreamQuery, AppError>)
    requires
        state.wf(),
    ensures
        upstream_query_post(*state, task_hash, manager_addr, r, true),
{
    if !state.tasks.contains(&task_hash) {
        return Err(AppError::NotFound { task_hash });
    }
    match manager_addr {
        Some(a) => Ok(
            UpstreamQuery { contract: a, query: QueryPayload::TaskBalance { task_hash } },
        ),
        None => Err(AppError::Unresolved),
    }
}

/// Dispatch one query to its handler. `tasks_addr` and `manager_addr` are
/// the host's recorded-instance resolutions for the task the query names,
/// where it names one.
pub fn query_handler(
    state: &ModuleState,
    msg: AppQueryMsg,
    tasks_addr: Option<String>,
    manager_addr: Option<String>,
) -> (r: Result<QueryAnswer, AppError>)
    requires
        state.wf(),
    ensures
        match msg {
            AppQueryMsg::Config {  } => r matches Ok(QueryAnswer::Config(c))
                && c.config.factory_addr@ == state.config.factory_addr@,
            AppQueryMsg::ActiveTasks { start_after, limit } => r matches Ok(
                QueryAnswer::ActiveTasks(page),
            ) && active_tasks_post(*state, start_after, limit, page),
            AppQueryMsg::TaskInfo { task_hash } => match r {
                Ok(a) => a matches QueryAnswer::TaskInfo(q) && upstream_query_post(
                    *state,
                    task_hash,
                    tasks_addr,
                    Ok(q),
                    false,
                ),
                Err(e) => upstream_query_post(*state, task_hash, tasks_addr, Err(e), false),
            },
            AppQueryMsg::TaskBalance { task_hash } => match r {
                Ok(a) => a matches QueryAnswer::TaskBalance(q) && upstream_query_post(
                    *state,
                    task_hash,
                    manager_addr,
                    Ok(q),
                    true,
                ),
                Err(e) => upstream_query_post(*state, task_hash, manager_addr, Err(e), true),
            },
        },
{
    match msg {
        AppQueryMsg::Config {  } => Ok(QueryAnswer::Config(query_config(state))),
        AppQueryMsg::ActiveTasks { start_after, limit } => Ok(
            QueryAnswer::ActiveTasks(query_active_tasks(state, start_after, limit)),
        ),
        AppQueryMsg::TaskInfo { task_hash } => match query_task_info(state, task_hash, tasks_addr) {
            Ok(q) => Ok(QueryAnswer::TaskInfo(q)),
            Err(e) => Err(e),
        },
        AppQueryMsg::TaskBalance { task_hash } => match query_task_balance(
            state,
            task_hash,
            manager_addr,
        ) {
            Ok(q) => Ok(QueryAnswer::TaskBalance(q)),
            Err(e) => Err(e),
        },
    }
}

} // verus!
