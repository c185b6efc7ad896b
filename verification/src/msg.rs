//! The module's command and query surface, and the response shapes its
//! queries answer with.

use vstd::prelude::*;

use crate::funds::Asset;
use crate::state::Config;

verus! {

/// Instantiation input: the directory address the configuration starts with.
pub struct AppInstantiateMsg {
    pub factory_addr: String,
}

/// The commands the module accepts. All are admin-only.
pub enum AppExecuteMsg {
    /// Replace the configured directory address.
    UpdateConfig { factory_addr: String },
    /// Create a task on the scheduler's latest instance, funding it with the
    /// listed assets. `task` is the encoded task definition, forwarded
    /// unread.
    CreateTask { task: Vec<u8>, assets: Vec<Asset> },
    /// Cancel a task and delete its record.
    RemoveTask { task_hash: String },
    /// Add the listed assets to a task's locked balance.
    RefillTask { task_hash: String, assets: Vec<Asset> },
    /// Sweep the module's own residual balance back to the owning account.
    MoveFunds {},
}

/// The queries the module answers. Unauthenticated.
pub enum AppQueryMsg {
    /// The current configuration.
    Config {},
    /// Registered task identifiers in ascending identifier order, strictly
    /// after the cursor, at most `limit` of them.
    ActiveTasks { start_after: Option<String>, limit: Option<u32> },
    /// The scheduler's snapshot of a registered task.
    TaskInfo { task_hash: String },
    /// The fund-custody service's balance snapshot of a registered task.
    TaskBalance { task_hash: String },
}

/// The module defines no migration behaviour; migrating changes nothing.
pub enum AppMigrateMsg {
    Noop {},
}

/// Notifications a token contract may deliver with transferred tokens.
pub enum Cw20HookMsg {
    Deposit {},
}

/// Answer to the configuration query.
pub struct ConfigResponse {
    pub config: Config,
}

} // verus!
