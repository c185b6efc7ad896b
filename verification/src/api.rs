//! The client interface another account module embeds to drive this one:
//! it builds the commands and queries to send to an installed instance of
//! this module, given that instance's resolved address.

use vstd::prelude::*;

use crate::actions::{Payload, QueryPayload, UpstreamQuery, WasmCall};
use crate::funds::Asset;
use crate::msg::{AppExecuteMsg, AppQueryMsg};

verus! {

/// A handle on an installed instance of this module.
pub struct CronCat {
    pub module_addr: String,
}

impl CronCat {
    /// A handle on the instance at `module_addr`.
    pub fn new(module_addr: String) -> (r: CronCat)
        ensures
            r.module_addr@ == module_addr@,
    {
        CronCat { module_addr }
    }

    /// Address of the module instance this handle drives.
    pub fn module_address(&self) -> (r: String)
        ensures
            r@ == self.module_addr@,
    {
        self.module_addr.clone()
    }

    /// A call asking the module to create a task, funded with the listed
    /// assets. The generated identifier is announced in the call's
    /// completion data once the creation is confirmed.
    pub fn create_task(&self, task: Vec<u8>, assets: Vec<Asset>) -> (r: WasmCall)
        ensures
            r.contract@ == self.module_addr@,
            r.funds@.len() == 0,
            r.payload matches Payload::App(m) && (m matches AppExecuteMsg::CreateTask {
                task: t,
                assets: a,
            } && t@ == task@ && a == assets),
    {
        WasmCall {
            contract: self.module_addr.clone(),
            payload: Payload::App(AppExecuteMsg::CreateTask { task, assets }),
            funds: Vec::new(),
        }
    }

    /// A call asking the module to refill a task's balance with the listed
    /// assets.
    pub fn refill_task(&self, task_hash: String, assets: Vec<Asset>) -> (r: WasmCall)
        ensures
            r.contract@ == self.module_addr@,
            r.funds@.len() == 0,
            r.payload matches Payload::App(m) && (m matches AppExecuteMsg::RefillTask {
                task_hash: h,
                assets: a,
            } && h@ == task_hash@ && a == assets),
    {
        WasmCall {
            contract: self.module_addr.clone(),
            payload: Payload::App(AppExecuteMsg::RefillTask { task_hash, assets }),
            funds: Vec::new(),
        }
    }

    /// A call asking the module to cancel a task and delete its record.
    pub fn remove_task(&self, task_hash: String) -> (r: WasmCall)
        ensures
            r.contract@ == self.module_addr@,
            r.funds@.len() == 0,
            r.payload matches Payload::App(m) && (m matches AppExecuteMsg::RemoveTask {
                task_hash: h,
            } && h@ == task_hash@),
    {
        WasmCall {
            contract: self.module_addr.clone(),
            payload: Payload::App(AppExecuteMsg::RemoveTask { task_hash }),
            funds: Vec::new(),
        }
    }

    /// The module's query for a task's scheduler snapshot.
    pub fn query_task_information(&self, task_hash: String) -> (r: UpstreamQuery)
        ensures
            r.contract@ == self.module_addr@,
            r.query matches QueryPayload::App(m) && (m matches AppQueryMsg::TaskInfo {
                task_hash: h,
            } && h@ == task_hash@),
    {
        UpstreamQuery {
            contract: self.module_addr.clone(),
            query: QueryPayload::App(AppQueryMsg::TaskInfo { task_hash }),
        }
    }

    /// The module's query for a task's balance snapshot.
    pub fn query_task_balance(&self, task_hash: String) -> (r: UpstreamQuery)
        ensures
            r.contract@ == self.module_addr@,
            r.query matches QueryPayload::App(m) && (m matches AppQueryMsg::TaskBalance {
                task_hash: h,
            } && h@ == task_hash@),
    {
        UpstreamQuery {
            contract: self.module_addr.clone(),
            query: QueryPayload::App(AppQueryMsg::TaskBalance { task_hash }),
        }
    }

    /// The module's query for a page of its registered task identifiers.
    pub fn query_active_tasks(&self, start_after: Option<String>, limit: Option<u32>) -> (r:
        UpstreamQuery)
        ensures
            r.contract@ == self.module_addr@,
            r.query matches QueryPayload::App(m) && (m matches AppQueryMsg::ActiveTasks {
                start_after: s,
                limit: l,
            } && s == start_after && l == limit),
    {
        UpstreamQuery {
            contract: self.module_addr.clone(),
            query: QueryPayload::App(AppQueryMsg::ActiveTasks { start_after, limit }),
        }
    }
}

} // verus!
