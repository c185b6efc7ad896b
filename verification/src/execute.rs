//! The command handlers. Each decides, from the persisted state and from
//! facts the host supplies (the admin verdict, validation outcomes, resolved
//! service addresses, upstream query results), how the state changes and
//! which calls to dispatch. The host resolves creation against the latest
//! deployed service instances, and removal and refill against the exact
//! instances recorded for the task.

use vstd::prelude::*;

use crate::actions::{OutMsg, Payload, Response, WasmCall, TASK_CREATE_REPLY_ID,
    TASK_REMOVE_REPLY_ID};
use crate::error::AppError;
use crate::funds::{cw20_of, native_of, coins_match, cw20s_match, sort_funds, Asset, Coin, Cw20Coin,
    Transfer};
use crate::hooks::{refill_task_hook, refill_task_hook_bytes, refill_temp_hook,
    refill_temp_hook_bytes};
use crate::msg::AppExecuteMsg;
use crate::state::ModuleState;

verus! {

/// `m` sends `amount` of the token at `token` to `target` through the
/// transfer-and-notify inlet, announcing itself with the encoded message
/// `inner`, with nothing attached and no continuation.
pub open spec fn is_cw20_send(
    m: OutMsg,
    token: Seq<char>,
    target: Seq<char>,
    amount: u128,
    inner: Seq<u8>,
) -> bool {
    m matches OutMsg::Wasm { call, reply_id: None } && call.contract@ == token
        && call.funds@.len() == 0 && (call.payload matches Payload::Cw20Send {
        contract,
        amount: a,
        msg,
    } && contract@ == target && a == amount && msg@ == inner)
}

/// `m` asks the scheduler at `scheduler` to create the task `task`, attaches
/// exactly the coins `funds`, and awaits the creation continuation.
pub open spec fn is_create_dispatch(
    m: OutMsg,
    scheduler: Seq<char>,
    task: Seq<u8>,
    funds: Seq<Transfer>,
) -> bool {
    m matches OutMsg::Wasm { call, reply_id: Some(id) } && id == TASK_CREATE_REPLY_ID
        && call.contract@ == scheduler && (call.payload matches Payload::CreateTask { task: t }
        && t@ == task) && coins_match(call.funds@, funds)
}

/// `m` asks the scheduler at `scheduler` to cancel the task `task_hash` and
/// awaits the removal continuation.
pub open spec fn is_remove_dispatch(m: OutMsg, scheduler: Seq<char>, task_hash: Seq<char>) -> bool {
    m matches OutMsg::Wasm { call, reply_id: Some(id) } && id == TASK_REMOVE_REPLY_ID
        && call.contract@ == scheduler && (call.payload matches Payload::RemoveTask {
        task_hash: h,
    } && h@ == task_hash) && call.funds@.len() == 0
}

/// `m` asks the fund-custody service at `manager` to refill the balance of
/// `task_hash` with exactly the coins `funds`, with no continuation.
pub open spec fn is_refill_dispatch(
    m: OutMsg,
    manager: Seq<char>,
    task_hash: Seq<char>,
    funds: Seq<Transfer>,
) -> bool {
    m matches OutMsg::Wasm { call, reply_id: None } && call.contract@ == manager && (call.payload
        matches Payload::RefillTaskBalance { task_hash: h } && h@ == task_hash) && coins_match(
        call.funds@,
        funds,
    )
}

/// `m` asks the fund-custody service at `manager` to sweep the caller's
/// locked balance back, with no continuation.
pub open spec fn is_user_withdraw(m: OutMsg, manager: Seq<char>) -> bool {
    m matches OutMsg::Wasm { call, reply_id: None } && call.contract@ == manager && call.payload
        is UserWithdraw && call.funds@.len() == 0
}

/// `m` transfers `amount` of the token at `token` plainly to `recipient`.
pub open spec fn is_cw20_transfer(
    m: OutMsg,
    token: Seq<char>,
    recipient: Seq<char>,
    amount: u128,
) -> bool {
    m matches OutMsg::Wasm { call, reply_id: None } && call.contract@ == token
        && call.funds@.len() == 0 && (call.payload matches Payload::Cw20Transfer {
        recipient: to,
        amount: a,
    } && to@ == recipient && a == amount)
}

/// Everything `update_config` promises, relating the state before and after
/// the call to the result.
pub open spec fn update_config_post(
    pre: ModuleState,
    post: ModuleState,
    sender_is_admin: bool,
    factory_addr: String,
    addr_valid: bool,
    r: Result<Response, AppError>,
) -> bool {
    match r {
        Ok(resp) => {
            &&& sender_is_admin && addr_valid
            &&& post.config.factory_addr@ == factory_addr@
            &&& post.tasks == pre.tasks
            &&& post.removed_task_manager == pre.removed_task_manager
            &&& resp.msgs@.len() == 0
            &&& resp.data is None
        },
        Err(e) => {
            &&& post == pre
            &&& (e is Unauthorized <==> !sender_is_admin)
            &&& (e is ValidationError <==> sender_is_admin && !addr_valid)
            &&& (e is Unauthorized || e is ValidationError)
        },
    }
}

/// Replace the configured directory address. Admin-only; `addr_valid` is the
/// host's verdict on the new address.
pub fn update_config(
    state: &mut ModuleState,
    sender_is_admin: bool,
    factory_addr: String,
    addr_valid: bool,
) -> (r: Result<Response, AppError>)
    requires
        old(state).wf(),
    ensures
        final(state).wf(),
        update_config_post(*old(state), *final(state), sender_is_admin, factory_addr, addr_valid, r),
{
    if !sender_is_admin {
        return Err(AppError::Unauthorized);
    }
    if !addr_valid {
        return Err(AppError::ValidationError);
    }
    state.config.factory_addr = factory_addr;
    Ok(Response::empty())
}

/// Everything `create_task` promises. On success the response first routes
/// every secondary asset to the fund-custody service's temporary-balance
/// inlet, then dispatches the creation request, with the native assets
/// attached, as a continuation-tracked call.
pub open spec fn create_task_post(
    sender_is_admin: bool,
    task: Vec<u8>,
    assets: Vec<Asset>,
    assets_valid: bool,
    tasks_addr: Option<String>,
    manager_addr: Option<String>,
    r: Result<Response, AppError>,
) -> bool {
    let native = native_of(assets@);
    let cw20s = cw20_of(assets@);
    match r {
        Ok(resp) => match tasks_addr {
            Some(sched) => {
                &&& sender_is_admin && assets_valid
                &&& resp.msgs@.len() == cw20s.len() + 1
                &&& (cw20s.len() > 0 ==> (manager_addr matches Some(mgr) && forall|i: int|
                    0 <= i < cw20s.len() ==> is_cw20_send(
                        #[trigger] resp.msgs@[i],
                        cw20s[i].0,
                        mgr@,
                        cw20s[i].1,
                        refill_temp_hook_bytes(),
                    )))
                &&& is_create_dispatch(resp.msgs@[cw20s.len() as int], sched@, task@, native)
                &&& resp.data is None
            },
            None => false,
        },
        Err(e) => {
            &&& (e is Unauthorized <==> !sender_is_admin)
            &&& (e is ValidationError <==> sender_is_admin && !assets_valid)
            &&& (e is Unresolved <==> sender_is_admin && assets_valid && (tasks_addr is None || (
            cw20s.len() > 0 && manager_addr is None)))
            &&& (e is Unauthorized || e is ValidationError || e is Unresolved)
        },
    }
}

/// Create a task on the scheduler, funding it with the listed assets.
/// Admin-only. The generated task identifier is not known here; it reaches
/// the registry only when the creation continuation runs. `tasks_addr` and
/// `manager_addr` are the host's latest-instance resolutions of the
/// scheduler and the fund-custody service; the latter is consulted only
/// when a secondary asset is given. `assets_valid` is the host's verdict on
/// the asset list.
pub fn create_task(
    sender_is_admin: bool,
    task: Vec<u8>,
    assets: Vec<Asset>,
    assets_valid: bool,
    tasks_addr: Option<String>,
    manager_addr: Option<String>,
) -> (r: Result<Response, AppError>)
    ensures
        create_task_post(sender_is_admin, task, assets, assets_valid, tasks_addr, manager_addr, r),
{
    if !sender_is_admin {
        return Err(AppError::Unauthorized);
    }
    if !assets_valid {
        return Err(AppError::ValidationError);
    }
    let sched = match tasks_addr {
        Some(t) => t,
        None => { return Err(AppError::Unresolved) },
    };
    let (funds, cw20s) = sort_funds(&assets);
    let mut msgs: Vec<OutMsg> = Vec::new();
    if cw20s.len() > 0 {
        let mgr = match manager_addr {
            Some(m) => m,
            None => { return Err(AppError::Unresolved) },
        };
        let n: usize = cw20s.len();
        for i in 0..n
            invariant
                n == cw20s@.len(),
                cw20s_match(cw20s@, cw20_of(assets@)),
                manager_addr matches Some(m) && m@ == mgr@,
                msgs@.len() == i,
                forall|j: int|
                    0 <= j < i ==> is_cw20_send(
                        #[trigger] msgs@[j],
                        cw20_of(assets@)[j].0,
                        mgr@,
                        cw20_of(assets@)[j].1,
                        refill_temp_hook_bytes(),
                    ),
        {
            let c = &cw20s[i];
            proof {
                assert(cw20s@[i as int].address@ == cw20_of(assets@)[i as int].0);
                assert(cw20s@[i as int].amount == cw20_of(assets@)[i as int].1);
            }
            msgs.push(
                OutMsg::Wasm {
                    call: WasmCall {
                        contract: c.address.clone(),
                        payload: Payload::Cw20Send {
                            contract: mgr.clone(),
                            amount: c.amount,
                            msg: refill_temp_hook(),
                        },
                        funds: Vec::new(),
                    },
                    reply_id: None,
                },
            );
        }
    }
    msgs.push(
        OutMsg::Wasm {
            call: WasmCall { contract: sched, payload: Payload::CreateTask { task }, funds },
            reply_id: Some(TASK_CREATE_REPLY_ID),
        },
    );
    Ok(Response { msgs, data: None })
}

/// Everything `refill_task` promises. On success the response routes every
/// secondary asset to the task's balance through the transfer-and-notify
/// inlet and, when native assets are given, refills the task's native
/// balance with them attached.
pub open spec fn refill_task_post(
    pre: ModuleState,
    sender_is_admin: bool,
    task_hash: String,
    assets: Vec<Asset>,
    assets_valid: bool,
    manager_addr: Option<String>,
    r: Result<Response, AppError>,
) -> bool {
    let native = native_of(assets@);
    let cw20s = cw20_of(assets@);
    let known = pre.tasks@.contains_key(task_hash@);
    match r {
        Ok(resp) => match manager_addr {
            Some(mgr) => {
                &&& sender_is_admin && assets_valid && known
                &&& forall|i: int|
                    0 <= i < cw20s.len() ==> is_cw20_send(
                        #[trigger] resp.msgs@[i],
                        cw20s[i].0,
                        mgr@,
                        cw20s[i].1,
                        refill_task_hook_bytes(task_hash@),
                    )
                &&& if native.len() > 0 {
                    resp.msgs@.len() == cw20s.len() + 1 && is_refill_dispatch(
                        resp.msgs@[cw20s.len() as int],
                        mgr@,
                        task_hash@,
                        native,
                    )
                } else {
                    resp.msgs@.len() == cw20s.len()
                }
                &&& resp.data is None
            },
            None => false,
        },
        Err(e) => {
            &&& (e is Unauthorized <==> !sender_is_admin)
            &&& (e is ValidationError <==> sender_is_admin && !assets_valid)
            &&& ((e matches AppError::NotFound { task_hash: t } && t@ == task_hash@) <==> (
            sender_is_admin && assets_valid && !known))
            &&& (e is Unresolved <==> sender_is_admin && assets_valid && known && manager_addr
                is None)
            &&& (e is Unauthorized || e is ValidationError || (e matches AppError::NotFound {
                task_hash: t,
            } && t@ == task_hash@) || e is Unresolved)
        },
    }
}

/// Add the listed assets to a registered task's locked balance. Admin-only;
/// fails without any fund movement when no record of the task exists.
/// `manager_addr` names the fund-custody instance that holds the task's
/// balance, resolved by the host from the task's registry entry.
pub fn refill_task(
    state: &ModuleState,
    sender_is_admin: bool,
    task_hash: String,
    assets: Vec<Asset>,
    assets_valid: bool,
    manager_addr: Option<String>,
) -> (r: Result<Response, AppError>)
    requires
        state.wf(),
    ensures
        refill_task_post(*state, sender_is_admin, task_hash, assets, assets_valid, manager_addr, r),
{
    if !sender_is_admin {
        return Err(AppError::Unauthorized);
    }
    if !assets_valid {
        return Err(AppError::ValidationError);
    }
    if !state.tasks.contains(&task_hash) {
        return Err(AppError::NotFound { task_hash });
    }
    let mgr = match manager_addr {
        Some(m) => m,
        None => { return Err(AppError::Unresolved) },
    };
    let (funds, cw20s) = sort_funds(&assets);
    let mut msgs: Vec<OutMsg> = Vec::new();
    let n: usize = cw20s.len();
    for i in 0..n
        invariant
            n == cw20s@.len(),
            cw20s_match(cw20s@, cw20_of(assets@)),
            msgs@.len() == i,
            forall|j: int|
                0 <= j < i ==> is_cw20_send(
                    #[trigger] msgs@[j],
                    cw20_of(assets@)[j].0,
                    mgr@,
                    cw20_of(assets@)[j].1,
                    refill_task_hook_bytes(task_hash@),
                ),
    {
        let c = &cw20s[i];
        proof {
            assert(cw20s@[i as int].address@ == cw20_of(assets@)[i as int].0);
            assert(cw20s@[i as int].amount == cw20_of(assets@)[i as int].1);
        }
        msgs.push(
            OutMsg::Wasm {
                call: WasmCall {
                    contract: c.address.clone(),
                    payload: Payload::Cw20Send {
                        contract: mgr.clone(),
                        amount: c.amount,
                        msg: refill_task_hook(&task_hash),
                    },
                    funds: Vec::new(),
                },
                reply_id: None,
            },
        );
    }
    if funds.len() > 0 {
        msgs.push(
            OutMsg::Wasm {
                call: WasmCall {
                    contract: mgr,
                    payload: Payload::RefillTaskBalance { task_hash },
                    funds,
                },
                reply_id: None,
            },
        );
    }
    Ok(Response { msgs, data: None })
}

/// Everything `remove_task` promises. The record is deleted as soon as the
/// request is accepted, without waiting for downstream confirmation: the
/// cancellation may legitimately find nothing left to cancel. While the
/// cancellation is in flight a refill of the same task therefore already
/// fails as not found.
pub open spec fn remove_task_post(
    pre: ModuleState,
    post: ModuleState,
    sender_is_admin: bool,
    task_hash: String,
    tasks_addr: Option<String>,
    manager_addr: Option<String>,
    task_still_listed: bool,
    user_balances: Vec<Cw20Coin>,
    r: Result<Response, AppError>,
) -> bool {
    let known = pre.tasks@.contains_key(task_hash@);
    match r {
        Ok(resp) => match (tasks_addr, manager_addr) {
            (Some(sched), Some(mgr)) => {
                &&& sender_is_admin && known
                &&& post.tasks@ =~= pre.tasks@.remove(task_hash@)
                &&& exists|i: int|
                    0 <= i < pre.tasks.order().len() && pre.tasks.order()[i] == task_hash@
                        && post.tasks.order() =~= pre.tasks.order().remove(i)
                &&& post.config == pre.config
                &&& resp.data is None
                &&& if task_still_listed {
                    &&& resp.msgs@.len() == 1
                    &&& is_remove_dispatch(resp.msgs@[0], sched@, task_hash@)
                    &&& post.removed_task_manager matches Some(m) && m@ == mgr@
                } else {
                    &&& post.removed_task_manager == pre.removed_task_manager
                    &&& if user_balances@.len() > 0 {
                        resp.msgs@.len() == 1 && is_user_withdraw(resp.msgs@[0], mgr@)
                    } else {
                        resp.msgs@.len() == 0
                    }
                }
            },
            _ => false,
        },
        Err(e) => {
            &&& post == pre
            &&& (e is Unauthorized <==> !sender_is_admin)
            &&& ((e matches AppError::NotFound { task_hash: t } && t@ == task_hash@) <==> (
            sender_is_admin && !known))
            &&& (e is Unresolved <==> sender_is_admin && known && (tasks_addr is None
                || manager_addr is None))
            &&& (e is Unauthorized || (e matches AppError::NotFound { task_hash: t } && t@
                == task_hash@) || e is Unresolved)
        },
    }
}

/// Cancel a registered task and delete its record. Admin-only. When the
/// scheduler still lists the task (`task_still_listed`), a cancellation is
/// dispatched as continuation-tracked and the fund-custody address is left
/// for the continuation to consult; when the task is already gone upstream,
/// that is no error, and any residual locked balance (`user_balances`, the
/// host's capped custody query) is swept immediately.
pub fn remove_task(
    state: &mut ModuleState,
    sender_is_admin: bool,
    task_hash: String,
    tasks_addr: Option<String>,
    manager_addr: Option<String>,
    task_still_listed: bool,
    user_balances: Vec<Cw20Coin>,
) -> (r: Result<Response, AppError>)
    requires
        old(state).wf(),
    ensures
        final(state).wf(),
        remove_task_post(
            *old(state),
            *final(state),
            sender_is_admin,
            task_hash,
            tasks_addr,
            manager_addr,
            task_still_listed,
            user_balances,
            r,
        ),
{
    if !sender_is_admin {
        return Err(AppError::Unauthorized);
    }
    if !state.tasks.contains(&task_hash) {
        return Err(AppError::NotFound { task_hash });
    }
    let (sched, mgr) = match (tasks_addr, manager_addr) {
        (Some(t), Some(m)) => (t, m),
        _ => { return Err(AppError::Unresolved) },
    };
    match state.tasks.remove(&task_hash) {
        Ok(_version) => {},
        Err(e) => { return Err(e) },
    }
    if task_still_listed {
        state.removed_task_manager = Some(mgr);
        let mut msgs: Vec<OutMsg> = Vec::new();
        msgs.push(
            OutMsg::Wasm {
                call: WasmCall {
                    contract: sched,
                    payload: Payload::RemoveTask { task_hash },
                    funds: Vec::new(),
                },
                reply_id: Some(TASK_REMOVE_REPLY_ID),
            },
        );
        Ok(Response { msgs, data: None })
    } else if user_balances.len() > 0 {
        let mut msgs: Vec<OutMsg> = Vec::new();
        msgs.push(
            OutMsg::Wasm {
                call: WasmCall {
                    contract: mgr,
                    payload: Payload::UserWithdraw,
                    funds: Vec::new(),
                },
                reply_id: None,
            },
        );
        Ok(Response { msgs, data: None })
    } else {
        Ok(Response::empty())
    }
}

/// Everything `move_funds` promises. On success the response returns the
/// module's whole residual balance to the owning account: one bank transfer
/// of all native coins (when there are any), then a full transfer of each
/// token balance.
pub open spec fn move_funds_post(
    sender_is_admin: bool,
    owner_addr: String,
    native_balance: Vec<Coin>,
    cw20_balances: Vec<Cw20Coin>,
    r: Result<Response, AppError>,
) -> bool {
    let base: int = if native_balance@.len() > 0 {
        1
    } else {
        0
    };
    match r {
        Ok(resp) => {
            &&& sender_is_admin
            &&& resp.msgs@.len() == base + cw20_balances@.len()
            &&& (native_balance@.len() > 0 ==> (resp.msgs@[0] matches OutMsg::BankSend {
                to,
                amount,
            } && to@ == owner_addr@ && amount == native_balance))
            &&& forall|i: int|
                base <= i < resp.msgs@.len() ==> is_cw20_transfer(
                    #[trigger] resp.msgs@[i],
                    cw20_balances@[i - base].address@,
                    owner_addr@,
                    cw20_balances@[i - base].amount,
                )
            &&& resp.data is None
        },
        Err(e) => {
            &&& !sender_is_admin
            &&& e is Unauthorized
        },
    }
}

/// Sweep the module's whole residual balance back to the owning account.
/// Admin-only. `native_balance` and `cw20_balances` are the host's readings
/// of everything the module itself currently holds; the response forwards
/// all of it, leaving the module's balance at zero.
pub fn move_funds(
    sender_is_admin: bool,
    owner_addr: String,
    native_balance: Vec<Coin>,
    cw20_balances: Vec<Cw20Coin>,
) -> (r: Result<Response, AppError>)
    ensures
        move_funds_post(sender_is_admin, owner_addr, native_balance, cw20_balances, r),
{
    if !sender_is_admin {
        return Err(AppError::Unauthorized);
    }
    let mut msgs: Vec<OutMsg> = Vec::new();
    let has_native = native_balance.len() > 0;
    if has_native {
        msgs.push(OutMsg::BankSend { to: owner_addr.clone(), amount: native_balance });
    }
    let ghost base: int = if has_native {
        1
    } else {
        0
    };
    let n: usize = cw20_balances.len();
    for i in 0..n
        invariant
            n == cw20_balances@.len(),
            msgs@.len() == base + i,
            base == if has_native { 1int } else { 0int },
            has_native ==> (msgs@[0] matches OutMsg::BankSend { to, amount } && to@ == owner_addr@
                && amount == native_balance),
            forall|j: int|
                base <= j < msgs@.len() ==> is_cw20_transfer(
                    #[trigger] msgs@[j],
                    cw20_balances@[j - base].address@,
                    owner_addr@,
                    cw20_balances@[j - base].amount,
                ),
    {
        let b = &cw20_balances[i];
        msgs.push(
            OutMsg::Wasm {
                call: WasmCall {
                    contract: b.address.clone(),
                    payload: Payload::Cw20Transfer {
                        recipient: owner_addr.clone(),
                        amount: b.amount,
                    },
                    funds: Vec::new(),
                },
                reply_id: None,
            },
        );
    }
    Ok(Response { msgs, data: None })
}

/// The facts the host gathers for a command before handing it to
/// `execute_handler`: the admin verdict for the caller, validation outcomes,
/// resolved service addresses, and the readings the command consults.
pub struct HostFacts {
    /// Whether the caller is the admin of the owning account.
    pub sender_is_admin: bool,
    /// Whether every asset in the command's list passed validation.
    pub assets_valid: bool,
    /// Whether a new configuration address passed validation.
    pub addr_valid: bool,
    /// Resolved scheduler address: the latest instance for creation, the
    /// task's recorded instance for removal.
    pub tasks_addr: Option<String>,
    /// Resolved fund-custody address, on the same policy.
    pub manager_addr: Option<String>,
    /// Whether the scheduler still lists the task a removal names.
    pub task_still_listed: bool,
    /// Capped reading of the owning account's locked balance on the
    /// fund-custody service.
    pub user_balances: Vec<Cw20Coin>,
    /// The owning account's address.
    pub owner_addr: String,
    /// The module's own native balance.
    pub native_balance: Vec<Coin>,
    /// The module's own token balances.
    pub cw20_balances: Vec<Cw20Coin>,
}

/// Dispatch one command to its handler. Each command's outcome is exactly
/// its handler's: the per-command postcondition predicates state it.
pub fn execute_handler(state: &mut ModuleState, msg: AppExecuteMsg, facts: HostFacts) -> (r:
    Result<Response, AppError>)
    requires
        old(state).wf(),
    ensures
        final(state).wf(),
        match msg {
            AppExecuteMsg::UpdateConfig { factory_addr } => update_config_post(
                *old(state),
                *final(state),
                facts.sender_is_admin,
                factory_addr,
                facts.addr_valid,
                r,
            ),
            AppExecuteMsg::CreateTask { task, assets } => *final(state) == *old(state)
                && create_task_post(
                facts.sender_is_admin,
                task,
                assets,
                facts.assets_valid,
                facts.tasks_addr,
                facts.manager_addr,
                r,
            ),
            AppExecuteMsg::RemoveTask { task_hash } => remove_task_post(
                *old(state),
                *final(state),
                facts.sender_is_admin,
                task_hash,
                facts.tasks_addr,
                facts.manager_addr,
                facts.task_still_listed,
                facts.user_balances,
                r,
            ),
            AppExecuteMsg::RefillTask { task_hash, assets } => *final(state) == *old(state)
                && refill_task_post(
                *old(state),
                facts.sender_is_admin,
                task_hash,
                assets,
                facts.assets_valid,
                facts.manager_addr,
                r,
            ),
            AppExecuteMsg::MoveFunds {  } => *final(state) == *old(state) && move_funds_post(
                facts.sender_is_admin,
                facts.owner_addr,
                facts.native_balance,
                facts.cw20_balances,
                r,
            ),
        },
{
    match msg {
        AppExecuteMsg::UpdateConfig { factory_addr } => update_config(
            state,
            facts.sender_is_admin,
            factory_addr,
            facts.addr_valid,
        ),
        AppExecuteMsg::CreateTask { task, assets } => create_task(
            facts.sender_is_admin,
            task,
            assets,
            facts.assets_valid,
            facts.tasks_addr,
            facts.manager_addr,
        ),
        AppExecuteMsg::RemoveTask { task_hash } => remove_task(
            state,
            facts.sender_is_admin,
            task_hash,
            facts.tasks_addr,
            facts.manager_addr,
            facts.task_still_listed,
            facts.user_balances,
        ),
        AppExecuteMsg::RefillTask { task_hash, assets } => refill_task(
            state,
            facts.sender_is_admin,
            task_hash,
            assets,
            facts.assets_valid,
            facts.manager_addr,
        ),
        AppExecuteMsg::MoveFunds {  } => move_funds(
            facts.sender_is_admin,
            facts.owner_addr,
            facts.native_balance,
            facts.cw20_balances,
        ),
    }
}

} // verus!
