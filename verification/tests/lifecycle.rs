//! Full lifecycle run: create a funded task, refill it, remove it, sweep the
//! residual balance back to the owning account. A small world model stands
//! in for the host: it applies the library's outbound messages to balances
//! the way the external services would, and feeds the library the facts the
//! host would gather.

use cosmwasm_std::{coins, to_json_binary, to_json_vec, BankMsg, Uint128, WasmMsg};
use croncat_sdk_tasks::types::{Action, Interval, TaskRequest};
use cw20::Cw20ExecuteMsg;

use croncat_app::actions::{OutMsg, Payload, TASK_CREATE_REPLY_ID, TASK_REMOVE_REPLY_ID};
use croncat_app::error::AppError;
use croncat_app::execute::{create_task, move_funds, refill_task, remove_task};
use croncat_app::funds::{Asset, AssetInfo, Coin, Cw20Coin};
use croncat_app::instantiate::instantiate_handler;
use croncat_app::msg::AppInstantiateMsg;
use croncat_app::query::{query_active_tasks, query_task_balance, QueryAnswer};
use croncat_app::replies::{create_task_reply, task_remove_reply, Event, EventAttribute};
use croncat_app::state::ModuleState;

const DENOM: &str = "abstr";
const CW20_ADDR: &str = "cw20contract";
const TASKS_ADDR: &str = "croncattasks";
const MANAGER_ADDR: &str = "croncatmanager";
const PROXY_ADDR: &str = "proxy";

/// Balances and upstream state the external services would hold.
struct World {
    proxy_native: u128,
    proxy_cw20: u128,
    module_native: u128,
    module_cw20: u128,
    task_native: u128,
    task_cw20: u128,
    temp_cw20: u128,
    task_listed: bool,
}

impl World {
    fn new() -> World {
        World {
            proxy_native: 50_000,
            proxy_cw20: 105,
            module_native: 0,
            module_cw20: 0,
            task_native: 0,
            task_cw20: 0,
            temp_cw20: 0,
            task_listed: false,
        }
    }

    fn coin_total(funds: &[Coin]) -> u128 {
        funds.iter().map(|c| c.amount).sum()
    }

    /// Apply one outbound message the way the target service would.
    fn apply(&mut self, msg: &OutMsg) {
        match msg {
            OutMsg::Wasm { call, reply_id } => match &call.payload {
                Payload::CreateTask { .. } => {
                    assert_eq!(call.contract, TASKS_ADDR);
                    assert_eq!(*reply_id, Some(TASK_CREATE_REPLY_ID));
                    let total = World::coin_total(&call.funds);
                    self.proxy_native -= total;
                    self.task_native += total;
                    // the manager associates the temporary balance with the task
                    self.task_cw20 += self.temp_cw20;
                    self.temp_cw20 = 0;
                    self.task_listed = true;
                }
                Payload::RemoveTask { .. } => {
                    assert_eq!(call.contract, TASKS_ADDR);
                    assert_eq!(*reply_id, Some(TASK_REMOVE_REPLY_ID));
                    assert!(self.task_listed);
                    // the manager refunds the task's remaining balance
                    self.module_native += self.task_native;
                    self.module_cw20 += self.task_cw20;
                    self.task_native = 0;
                    self.task_cw20 = 0;
                    self.task_listed = false;
                }
                Payload::RefillTaskBalance { .. } => {
                    assert_eq!(call.contract, MANAGER_ADDR);
                    let total = World::coin_total(&call.funds);
                    self.proxy_native -= total;
                    self.task_native += total;
                }
                Payload::UserWithdraw => {
                    panic!("no locked balance should remain in this run");
                }
                Payload::Cw20Send { contract, amount, msg } => {
                    assert_eq!(call.contract, CW20_ADDR);
                    assert_eq!(contract, MANAGER_ADDR);
                    self.proxy_cw20 -= *amount;
                    let temp_hook = to_json_vec(
                        &croncat_sdk_manager::msg::ManagerReceiveMsg::RefillTempBalance {},
                    )
                    .unwrap();
                    if *msg == temp_hook {
                        self.temp_cw20 += *amount;
                    } else {
                        // a task-balance notification credits the task directly
                        self.task_cw20 += *amount;
                    }
                }
                Payload::Cw20Transfer { recipient, amount } => {
                    assert_eq!(call.contract, CW20_ADDR);
                    assert_eq!(recipient, PROXY_ADDR);
                    self.module_cw20 -= *amount;
                    self.proxy_cw20 += *amount;
                }
                Payload::App(_) => panic!("the module does not call itself"),
            },
            OutMsg::BankSend { to, amount } => {
                assert_eq!(to, PROXY_ADDR);
                let total = World::coin_total(amount);
                self.module_native -= total;
                self.proxy_native += total;
            }
        }
    }
}

fn creation_events(task_hash: &str, version: &str) -> Vec<Event> {
    vec![Event {
        ty: "wasm".to_owned(),
        attributes: vec![
            EventAttribute { key: "action".to_owned(), value: "create_task".to_owned() },
            EventAttribute { key: "task_hash".to_owned(), value: task_hash.to_owned() },
            EventAttribute { key: "task_version".to_owned(), value: version.to_owned() },
        ],
    }]
}

fn funding(native: u128, cw20: u128) -> Vec<Asset> {
    let mut assets = Vec::new();
    if native > 0 {
        assets.push(Asset { info: AssetInfo::Native { denom: DENOM.to_owned() }, amount: native });
    }
    if cw20 > 0 {
        assets.push(Asset { info: AssetInfo::Cw20 { address: CW20_ADDR.to_owned() }, amount: cw20 });
    }
    assets
}

fn task_balance_of(state: &ModuleState, world: &World, task_hash: &str) -> (u128, u128) {
    let q = query_task_balance(state, task_hash.to_owned(), Some(MANAGER_ADDR.to_owned()))
        .expect("registered task");
    assert_eq!(q.contract, MANAGER_ADDR);
    (world.task_native, world.task_cw20)
}

#[test]
fn rapid_testing() {
    let mut world = World::new();
    let mut state = instantiate_handler(
        AppInstantiateMsg { factory_addr: "croncatfactory".to_owned() },
        true,
    )
    .unwrap();

    // A full task definition, encoded and forwarded opaquely by the module.
    let task = TaskRequest {
        interval: Interval::Once,
        boundary: None,
        stop_on_fail: false,
        actions: vec![
            Action {
                msg: BankMsg::Send { to_address: "receiver".to_owned(), amount: coins(1, DENOM) }
                    .into(),
                gas_limit: None,
            },
            Action {
                msg: WasmMsg::Execute {
                    contract_addr: CW20_ADDR.to_owned(),
                    msg: to_json_binary(&Cw20ExecuteMsg::Transfer {
                        recipient: "bob".to_owned(),
                        amount: Uint128::new(100),
                    })
                    .unwrap(),
                    funds: vec![],
                }
                .into(),
                gas_limit: Some(120),
            },
        ],
        queries: None,
        transforms: None,
        cw20: Some(cw20::Cw20Coin { address: CW20_ADDR.to_owned(), amount: Uint128::new(100) }),
    };
    let task_bytes = to_json_vec(&task).unwrap();

    // Task creation: 45_000 native and 100 of the token.
    let resp = create_task(
        true,
        task_bytes,
        funding(45_000, 100),
        true,
        Some(TASKS_ADDR.to_owned()),
        Some(MANAGER_ADDR.to_owned()),
    )
    .unwrap();
    for m in resp.msgs.iter() {
        world.apply(m);
    }
    let reply = create_task_reply(&mut state, creation_events("task1", "1.0")).unwrap();
    assert_eq!(reply.data.as_deref(), Some("task1"));

    let active_tasks = query_active_tasks(&state, None, None);
    assert_eq!(active_tasks.len(), 1);

    // Refilling the task.
    let task_balance1 = task_balance_of(&state, &world, &active_tasks[0]);
    let resp = refill_task(
        &state,
        true,
        active_tasks[0].clone(),
        funding(100, 5),
        true,
        Some(MANAGER_ADDR.to_owned()),
    )
    .unwrap();
    for m in resp.msgs.iter() {
        world.apply(m);
    }
    let task_balance2 = task_balance_of(&state, &world, &active_tasks[0]);
    assert_eq!(task_balance2.0, task_balance1.0 + 100);
    assert_eq!(task_balance2.1, task_balance1.1 + 5);

    // Removing the task: the module's own balance is empty before,
    assert!(world.module_native == 0);
    assert!(world.module_cw20 == 0);

    let resp = remove_task(
        &mut state,
        true,
        active_tasks[0].clone(),
        Some(TASKS_ADDR.to_owned()),
        Some(MANAGER_ADDR.to_owned()),
        world.task_listed,
        Vec::new(),
    )
    .unwrap();
    for m in resp.msgs.iter() {
        world.apply(m);
    }
    // ... the continuation finds no locked balance left to sweep,
    let reply = task_remove_reply(&mut state, Vec::new()).unwrap();
    assert!(reply.msgs.is_empty());

    // ... and the refunded balance landed on the module.
    assert_eq!(world.module_native, 45_100);
    assert_eq!(world.module_cw20, 105);

    // Moving funds back to the owning account.
    let proxy_balance1 = world.proxy_native;
    let proxy_cw20_balance1 = world.proxy_cw20;
    let module_balance = vec![Coin { denom: DENOM.to_owned(), amount: world.module_native }];
    let module_cw20s = vec![Cw20Coin { address: CW20_ADDR.to_owned(), amount: world.module_cw20 }];
    let resp = move_funds(true, PROXY_ADDR.to_owned(), module_balance, module_cw20s).unwrap();
    for m in resp.msgs.iter() {
        world.apply(m);
    }

    // The module's balance is zero and everything landed on the account.
    assert!(world.module_native == 0);
    assert!(world.module_cw20 == 0);
    assert_eq!(world.proxy_native, proxy_balance1 + 45_100);
    assert_eq!(world.proxy_cw20, proxy_cw20_balance1 + 105);

    // State updated.
    let active_tasks = query_active_tasks(&state, None, None);
    assert_eq!(active_tasks.len(), 0);
}

#[test]
fn query_answer_shapes() {
    let mut state = instantiate_handler(
        AppInstantiateMsg { factory_addr: "croncatfactory".to_owned() },
        true,
    )
    .unwrap();
    create_task_reply(&mut state, creation_events("task1", "1.0")).unwrap();
    let answer = croncat_app::query::query_handler(
        &state,
        croncat_app::msg::AppQueryMsg::TaskBalance { task_hash: "task1".to_owned() },
        None,
        Some(MANAGER_ADDR.to_owned()),
    )
    .unwrap();
    match answer {
        QueryAnswer::TaskBalance(q) => {
            assert_eq!(q.contract, MANAGER_ADDR);
            assert!(matches!(
                q.query,
                croncat_app::actions::QueryPayload::TaskBalance { task_hash } if task_hash == "task1"
            ));
        }
        _ => panic!("a balance query answers with a balance directive"),
    }
    let missing = croncat_app::query::query_handler(
        &state,
        croncat_app::msg::AppQueryMsg::TaskInfo { task_hash: "ghost".to_owned() },
        Some(TASKS_ADDR.to_owned()),
        None,
    );
    assert!(matches!(missing, Err(AppError::NotFound { task_hash }) if task_hash == "ghost"));
}
