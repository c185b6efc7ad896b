//! Encoded notification messages for the fund-custody service's
//! transfer-and-notify inlet. A secondary asset cannot be attached to an
//! arbitrary call, so it is sent to the token contract with one of these
//! messages, which the token contract delivers to the fund-custody service
//! together with the transferred amount.
//!
//! The encoding itself is done by the fund-custody service's own message
//! type and the host's JSON encoder; the two functions here are the
//! library's only calls into outside crates.

use vstd::prelude::*;

verus! {

/// The encoded temporary-balance notification,
/// `{"refill_temp_balance":{}}` as bytes.
pub open spec fn refill_temp_hook_bytes() -> Seq<u8> {
    seq![
        123u8, 34, 114, 101, 102, 105, 108, 108, 95, 116, 101, 109, 112, 95, 98, 97, 108, 97,
        110, 99, 101, 34, 58, 123, 125, 125,
    ]
}

/// The encoded task-balance notification for a given task identifier. The
/// encoding is a fixed JSON frame around the escaped identifier; it depends
/// on the identifier alone.
pub uninterp spec fn refill_task_hook_bytes(task_hash: Seq<char>) -> Seq<u8>;

/// Relies on cosmwasm_std::to_json_vec applied to
/// croncat_sdk_manager::msg::ManagerReceiveMsg::RefillTempBalance: the
/// message derives its serialization with field names in snake case, so the
/// encoder produces exactly `{"refill_temp_balance":{}}`; encoding this
/// variant cannot fail.
#[verifier::external_body]
pub(crate) fn refill_temp_hook() -> (r: Vec<u8>)
    ensures
        r@ == refill_temp_hook_bytes(),
{
    let msg = croncat_sdk_manager::msg::ManagerReceiveMsg::RefillTempBalance {};
    match cosmwasm_std::to_json_vec(&msg) {
        Ok(b) => b,
        Err(_) => Vec::new(),
    }
}

/// Relies on cosmwasm_std::to_json_vec applied to
/// croncat_sdk_manager::msg::ManagerReceiveMsg::RefillTaskBalance: the
/// encoder is deterministic and the message holds the task identifier alone,
/// so the result is a function of the identifier; encoding a string field
/// cannot fail.
#[verifier::external_body]
pub(crate) fn refill_task_hook(task_hash: &String) -> (r: Vec<u8>)
    ensures
        r@ == refill_task_hook_bytes(task_hash@),
{
    let msg = croncat_sdk_manager::msg::ManagerReceiveMsg::RefillTaskBalance {
        task_hash: task_hash.clone(),
    };
    match cosmwasm_std::to_json_vec(&msg) {
        Ok(b) => b,
        Err(_) => Vec::new(),
    }
}

} // verus!
