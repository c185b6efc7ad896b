//! Instantiation: building the module's initial state.

use vstd::prelude::*;

use crate::error::AppError;
use crate::msg::AppInstantiateMsg;
use crate::state::{Config, ModuleState, TaskRegistry};

verus! {

/// Build the initial state from the instantiation input: the given directory
/// address as configuration, no registered tasks, no pending removal.
/// `addr_valid` is the host's verdict on the address.
pub fn instantiate_handler(msg: AppInstantiateMsg, addr_valid: bool) -> (r: Result<
    ModuleState,
    AppError,
>)
    ensures
        match r {
            Ok(s) => {
                &&& addr_valid
                &&& s.wf()
                &&& s.config.factory_addr@ == msg.factory_addr@
                &&& s.tasks@ =~= Map::<Seq<char>, Seq<char>>::empty()
                &&& s.tasks.order() =~= Seq::<Seq<char>>::empty()
                &&& s.removed_task_manager is None
            },
            Err(e) => !addr_valid && e is ValidationError,
        },
{
    if !addr_valid {
        return Err(AppError::ValidationError);
    }
    Ok(
        ModuleState {
            config: Config { factory_addr: msg.factory_addr },
            tasks: TaskRegistry::empty(),
            removed_task_manager: None,
        },
    )
}

} // verus!
