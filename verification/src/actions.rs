//! The outbound side of a decision: the calls a handler asks the host to
//! dispatch on behalf of the owning account, and the queries it asks the
//! host to forward to an upstream service.

use vstd::prelude::*;

use crate::funds::Coin;
use crate::msg::{AppExecuteMsg, AppQueryMsg};

verus! {

/// Correlation token attached to a creation dispatch; its continuation is
/// the creation continuation handler.
pub const TASK_CREATE_REPLY_ID: u64 = 1;

/// Correlation token attached to a removal dispatch; its continuation is
/// the removal continuation handler.
pub const TASK_REMOVE_REPLY_ID: u64 = 2;

/// What an outbound contract call asks the target to do.
pub enum Payload {
    /// Ask the scheduler to create a task from an opaque, already encoded
    /// task definition. The module forwards the definition without reading
    /// it.
    CreateTask { task: Vec<u8> },
    /// Ask the scheduler to cancel a task.
    RemoveTask { task_hash: String },
    /// Ask the fund-custody service to add the attached coins to a task's
    /// locked balance.
    RefillTaskBalance { task_hash: String },
    /// Ask the fund-custody service to sweep the caller's whole locked
    /// balance back to the caller.
    UserWithdraw,
    /// Ask a token contract to move `amount` to `contract` and notify it
    /// with the encoded message `msg` (transfer-and-notify routing for
    /// secondary assets).
    Cw20Send { contract: String, amount: u128, msg: Vec<u8> },
    /// Ask a token contract to move `amount` to `recipient`.
    Cw20Transfer { recipient: String, amount: u128 },
    /// Ask this module itself to run one of its own commands; used by the
    /// client interface other modules embed.
    App(AppExecuteMsg),
}

/// One outbound contract call: the target, what to ask of it, and the native
/// coins to attach.
pub struct WasmCall {
    pub contract: String,
    pub payload: Payload,
    pub funds: Vec<Coin>,
}

/// One outbound message of a decision.
pub enum OutMsg {
    /// A contract call, dispatched as continuation-tracked when `reply_id`
    /// carries a correlation token.
    Wasm { call: WasmCall, reply_id: Option<u64> },
    /// A plain transfer of native coins from the module's own balance.
    BankSend { to: String, amount: Vec<Coin> },
}

/// What a command handler decides: the messages to dispatch, in order, and
/// optional completion data for the caller.
pub struct Response {
    pub msgs: Vec<OutMsg>,
    pub data: Option<String>,
}

impl Response {
    /// A response that dispatches nothing.
    pub fn empty() -> (r: Response)
        ensures
            r.msgs@.len() == 0,
            r.data is None,
    {
        Response { msgs: Vec::new(), data: None }
    }
}

/// What an upstream query asks.
pub enum QueryPayload {
    /// The scheduler's snapshot of a task.
    Task { task_hash: String },
    /// The fund-custody service's balance snapshot of a task.
    TaskBalance { task_hash: String },
    /// One of this module's own queries; used by the client interface.
    App(AppQueryMsg),
}

/// A query for the host to forward: the service to ask and what to ask it.
pub struct UpstreamQuery {
    pub contract: String,
    pub query: QueryPayload,
}

} // verus!
