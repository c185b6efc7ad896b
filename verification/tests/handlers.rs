//! Handler-level tests: each error kind on an input that produces it, the
//! exact shape of dispatched messages, the encoded notification payloads,
//! and the paging of the active-task listing.

use cosmwasm_std::to_json_vec;
use croncat_sdk_manager::msg::ManagerReceiveMsg;

use croncat_app::actions::{OutMsg, Payload, TASK_CREATE_REPLY_ID, TASK_REMOVE_REPLY_ID};
use croncat_app::api::CronCat;
use croncat_app::error::AppError;
use croncat_app::execute::{create_task, execute_handler, move_funds, refill_task, remove_task,
    update_config, HostFacts};
use croncat_app::funds::{sort_funds, Asset, AssetInfo, Coin, Cw20Coin};
use croncat_app::instantiate::instantiate_handler;
use croncat_app::msg::{AppExecuteMsg, AppInstantiateMsg};
use croncat_app::query::{query_active_tasks, query_config, query_task_info};
use croncat_app::replies::{create_task_reply, task_remove_reply, Event, EventAttribute};
use croncat_app::state::ModuleState;

fn fresh_state() -> ModuleState {
    instantiate_handler(AppInstantiateMsg { factory_addr: "factory1".to_owned() }, true).unwrap()
}

fn creation_events(task_hash: &str, version: &str) -> Vec<Event> {
    vec![Event {
        ty: "wasm".to_owned(),
        attributes: vec![
            EventAttribute { key: "action".to_owned(), value: "create_task".to_owned() },
            EventAttribute { key: "task_hash".to_owned(), value: task_hash.to_owned() },
            EventAttribute { key: "task_version".to_owned(), value: version.to_owned() },
        ],
    }]
}

fn register(state: &mut ModuleState, task_hash: &str, version: &str) {
    create_task_reply(state, creation_events(task_hash, version)).unwrap();
}

#[test]
fn instantiate_rejects_invalid_address() {
    let r = instantiate_handler(AppInstantiateMsg { factory_addr: "BAD".to_owned() }, false);
    assert!(matches!(r, Err(AppError::ValidationError)));
}

#[test]
fn update_config_replaces_the_directory_address() {
    let mut state = fresh_state();
    let resp = update_config(&mut state, true, "factory2".to_owned(), true).unwrap();
    assert!(resp.msgs.is_empty());
    assert_eq!(query_config(&state).config.factory_addr, "factory2");
}

#[test]
fn update_config_requires_admin() {
    let mut state = fresh_state();
    let r = update_config(&mut state, false, "factory2".to_owned(), true);
    assert!(matches!(r, Err(AppError::Unauthorized)));
    assert_eq!(query_config(&state).config.factory_addr, "factory1");
}

#[test]
fn update_config_rejects_invalid_address() {
    let mut state = fresh_state();
    let r = update_config(&mut state, true, "BAD".to_owned(), false);
    assert!(matches!(r, Err(AppError::ValidationError)));
    assert_eq!(query_config(&state).config.factory_addr, "factory1");
}

#[test]
fn create_task_fails_unresolved_without_a_scheduler() {
    let r = create_task(true, vec![1, 2, 3], Vec::new(), true, None, Some("mgr".to_owned()));
    assert!(matches!(r, Err(AppError::Unresolved)));
}

#[test]
fn create_task_routes_both_asset_classes() {
    let assets = vec![
        Asset { info: AssetInfo::Native { denom: "abstr".to_owned() }, amount: 45_000 },
        Asset { info: AssetInfo::Cw20 { address: "token1".to_owned() }, amount: 100 },
    ];
    let resp = create_task(
        true,
        vec![7, 7],
        assets,
        true,
        Some("tasks1".to_owned()),
        Some("mgr1".to_owned()),
    )
    .unwrap();
    assert_eq!(resp.msgs.len(), 2);
    match &resp.msgs[0] {
        OutMsg::Wasm { call, reply_id: None } => {
            assert_eq!(call.contract, "token1");
            assert!(call.funds.is_empty());
            match &call.payload {
                Payload::Cw20Send { contract, amount, msg } => {
                    assert_eq!(contract, "mgr1");
                    assert_eq!(*amount, 100);
                    // the temporary-balance notification, exactly as the
                    // fund-custody service's own message type encodes it
                    assert_eq!(msg, &to_json_vec(&ManagerReceiveMsg::RefillTempBalance {}).unwrap());
                    assert_eq!(msg, &b"{\"refill_temp_balance\":{}}".to_vec());
                }
                _ => panic!("a secondary asset goes through the inlet"),
            }
        }
        _ => panic!("the first message is the token send"),
    }
    match &resp.msgs[1] {
        OutMsg::Wasm { call, reply_id } => {
            assert_eq!(*reply_id, Some(TASK_CREATE_REPLY_ID));
            assert_eq!(call.contract, "tasks1");
            assert_eq!(call.funds.len(), 1);
            assert_eq!(call.funds[0].denom, "abstr");
            assert_eq!(call.funds[0].amount, 45_000);
            assert!(matches!(&call.payload, Payload::CreateTask { task } if *task == vec![7, 7]));
        }
        _ => panic!("the last message is the creation dispatch"),
    }
}

#[test]
fn create_task_with_native_funds_only_needs_no_custody_resolution() {
    let assets = vec![Asset { info: AssetInfo::Native { denom: "abstr".to_owned() }, amount: 9 }];
    let resp = create_task(true, vec![1], assets, true, Some("tasks1".to_owned()), None).unwrap();
    assert_eq!(resp.msgs.len(), 1);
    match &resp.msgs[0] {
        OutMsg::Wasm { call, reply_id } => {
            assert_eq!(*reply_id, Some(TASK_CREATE_REPLY_ID));
            assert_eq!(call.contract, "tasks1");
            assert_eq!(call.funds[0].amount, 9);
        }
        _ => panic!("the creation dispatch is a contract call"),
    }
}

#[test]
fn create_task_with_secondary_funds_fails_unresolved_without_custody() {
    let assets = vec![Asset { info: AssetInfo::Cw20 { address: "token1".to_owned() }, amount: 9 }];
    let r = create_task(true, vec![1], assets, true, Some("tasks1".to_owned()), None);
    assert!(matches!(r, Err(AppError::Unresolved)));
}

#[test]
fn refill_unknown_task_fails_not_found_and_moves_nothing() {
    let state = fresh_state();
    let assets = vec![Asset { info: AssetInfo::Native { denom: "abstr".to_owned() }, amount: 5 }];
    let r = refill_task(&state, true, "ghost".to_owned(), assets, true, Some("mgr1".to_owned()));
    match r {
        Err(AppError::NotFound { task_hash }) => assert_eq!(task_hash, "ghost"),
        _ => panic!("an unknown identifier fails as not found"),
    }
}

#[test]
fn refill_sends_the_task_balance_notification() {
    let mut state = fresh_state();
    register(&mut state, "task1", "1.0");
    let assets = vec![Asset { info: AssetInfo::Cw20 { address: "token1".to_owned() }, amount: 5 }];
    let resp = refill_task(&state, true, "task1".to_owned(), assets, true, Some("mgr1".to_owned()))
        .unwrap();
    assert_eq!(resp.msgs.len(), 1);
    match &resp.msgs[0] {
        OutMsg::Wasm { call, reply_id: None } => match &call.payload {
            Payload::Cw20Send { contract, amount, msg } => {
                assert_eq!(contract, "mgr1");
                assert_eq!(*amount, 5);
                assert_eq!(
                    msg,
                    &to_json_vec(&ManagerReceiveMsg::RefillTaskBalance {
                        task_hash: "task1".to_owned(),
                    })
                    .unwrap(),
                );
                assert_eq!(
                    msg,
                    &b"{\"refill_task_balance\":{\"task_hash\":\"task1\"}}".to_vec(),
                );
            }
            _ => panic!("a secondary asset goes through the inlet"),
        },
        _ => panic!("the token send carries no continuation"),
    }
}

#[test]
fn refill_attaches_native_funds_to_the_refill_call() {
    let mut state = fresh_state();
    register(&mut state, "task1", "1.0");
    let assets = vec![Asset { info: AssetInfo::Native { denom: "abstr".to_owned() }, amount: 100 }];
    let resp = refill_task(&state, true, "task1".to_owned(), assets, true, Some("mgr1".to_owned()))
        .unwrap();
    assert_eq!(resp.msgs.len(), 1);
    match &resp.msgs[0] {
        OutMsg::Wasm { call, reply_id: None } => {
            assert_eq!(call.contract, "mgr1");
            assert_eq!(call.funds[0].amount, 100);
            assert!(matches!(
                &call.payload,
                Payload::RefillTaskBalance { task_hash } if task_hash == "task1"
            ));
        }
        _ => panic!("the refill call carries no continuation"),
    }
}

#[test]
fn duplicate_creation_reply_fails_and_keeps_the_record() {
    let mut state = fresh_state();
    register(&mut state, "task1", "1.0");
    let r = create_task_reply(&mut state, creation_events("task1", "2.0"));
    match r {
        Err(AppError::TaskAlreadyExists { task_hash }) => assert_eq!(task_hash, "task1"),
        _ => panic!("a duplicate insert must fail, never overwrite"),
    }
    // the recorded version is unchanged: the exact-version resolution still
    // targets the instance that created the task
    let q = query_task_info(&state, "task1".to_owned(), Some("tasks1".to_owned())).unwrap();
    assert_eq!(q.contract, "tasks1");
    assert_eq!(query_active_tasks(&state, None, None), vec!["task1".to_owned()]);
}

#[test]
fn creation_reply_without_announcement_is_malformed() {
    let mut state = fresh_state();
    let events = vec![Event {
        ty: "wasm".to_owned(),
        attributes: vec![EventAttribute { key: "action".to_owned(), value: "other".to_owned() }],
    }];
    let r = create_task_reply(&mut state, events);
    assert!(matches!(r, Err(AppError::MalformedReply)));
    assert!(query_active_tasks(&state, None, None).is_empty());
}

#[test]
fn removal_while_still_listed_dispatches_a_cancellation() {
    let mut state = fresh_state();
    register(&mut state, "task1", "1.0");
    let resp = remove_task(
        &mut state,
        true,
        "task1".to_owned(),
        Some("tasks1".to_owned()),
        Some("mgr1".to_owned()),
        true,
        Vec::new(),
    )
    .unwrap();
    assert_eq!(resp.msgs.len(), 1);
    match &resp.msgs[0] {
        OutMsg::Wasm { call, reply_id } => {
            assert_eq!(*reply_id, Some(TASK_REMOVE_REPLY_ID));
            assert_eq!(call.contract, "tasks1");
            assert!(matches!(
                &call.payload,
                Payload::RemoveTask { task_hash } if task_hash == "task1"
            ));
        }
        _ => panic!("the cancellation is a contract call"),
    }
    // the record is gone immediately, whatever happens downstream
    assert!(query_active_tasks(&state, None, None).is_empty());
    // the continuation sweeps only when locked balance remains
    let reply = task_remove_reply(
        &mut state,
        vec![Cw20Coin { address: "token1".to_owned(), amount: 3 }],
    )
    .unwrap();
    assert_eq!(reply.msgs.len(), 1);
    match &reply.msgs[0] {
        OutMsg::Wasm { call, reply_id: None } => {
            assert_eq!(call.contract, "mgr1");
            assert!(matches!(call.payload, Payload::UserWithdraw));
        }
        _ => panic!("the sweep carries no continuation"),
    }
}

#[test]
fn removal_of_a_task_already_gone_upstream_still_sweeps() {
    let mut state = fresh_state();
    register(&mut state, "task1", "1.0");
    // the scheduler no longer lists the task: not an error, and any residual
    // locked balance is swept at once
    let resp = remove_task(
        &mut state,
        true,
        "task1".to_owned(),
        Some("tasks1".to_owned()),
        Some("mgr1".to_owned()),
        false,
        vec![Cw20Coin { address: "token1".to_owned(), amount: 2 }],
    )
    .unwrap();
    assert_eq!(resp.msgs.len(), 1);
    match &resp.msgs[0] {
        OutMsg::Wasm { call, reply_id: None } => {
            assert_eq!(call.contract, "mgr1");
            assert!(matches!(call.payload, Payload::UserWithdraw));
        }
        _ => panic!("the sweep carries no continuation"),
    }
    assert!(query_active_tasks(&state, None, None).is_empty());
}

#[test]
fn removal_of_a_task_gone_upstream_with_no_balance_does_nothing_more() {
    let mut state = fresh_state();
    register(&mut state, "task1", "1.0");
    let resp = remove_task(
        &mut state,
        true,
        "task1".to_owned(),
        Some("tasks1".to_owned()),
        Some("mgr1".to_owned()),
        false,
        Vec::new(),
    )
    .unwrap();
    assert!(resp.msgs.is_empty());
}

#[test]
fn removal_of_unknown_task_fails_not_found() {
    let mut state = fresh_state();
    let r = remove_task(
        &mut state,
        true,
        "ghost".to_owned(),
        Some("tasks1".to_owned()),
        Some("mgr1".to_owned()),
        true,
        Vec::new(),
    );
    assert!(matches!(r, Err(AppError::NotFound { task_hash }) if task_hash == "ghost"));
}

#[test]
fn removal_reply_without_marker_is_a_protocol_violation() {
    let mut state = fresh_state();
    let r = task_remove_reply(&mut state, Vec::new());
    assert!(matches!(r, Err(AppError::MissingRemovalMarker)));
}

#[test]
fn move_funds_requires_admin() {
    let r = move_funds(false, "proxy".to_owned(), Vec::new(), Vec::new());
    assert!(matches!(r, Err(AppError::Unauthorized)));
}

#[test]
fn move_funds_sweeps_every_balance_to_the_owner() {
    let native = vec![
        Coin { denom: "abstr".to_owned(), amount: 45_100 },
        Coin { denom: "other".to_owned(), amount: 7 },
    ];
    let cw20s = vec![Cw20Coin { address: "token1".to_owned(), amount: 105 }];
    let resp = move_funds(true, "proxy".to_owned(), native, cw20s).unwrap();
    assert_eq!(resp.msgs.len(), 2);
    match &resp.msgs[0] {
        OutMsg::BankSend { to, amount } => {
            assert_eq!(to, "proxy");
            assert_eq!(amount.len(), 2);
            assert_eq!(amount[0].amount, 45_100);
            assert_eq!(amount[1].amount, 7);
        }
        _ => panic!("native coins go in one bank transfer"),
    }
    match &resp.msgs[1] {
        OutMsg::Wasm { call, reply_id: None } => {
            assert_eq!(call.contract, "token1");
            assert!(matches!(
                &call.payload,
                Payload::Cw20Transfer { recipient, amount } if recipient == "proxy" && *amount == 105
            ));
        }
        _ => panic!("each token balance goes in one full transfer"),
    }
}

#[test]
fn move_funds_with_empty_balances_dispatches_nothing() {
    let resp = move_funds(true, "proxy".to_owned(), Vec::new(), Vec::new()).unwrap();
    assert!(resp.msgs.is_empty());
}

#[test]
fn sort_funds_splits_by_class_in_listing_order() {
    let assets = vec![
        Asset { info: AssetInfo::Cw20 { address: "token1".to_owned() }, amount: 1 },
        Asset { info: AssetInfo::Native { denom: "a".to_owned() }, amount: 2 },
        Asset { info: AssetInfo::Cw20 { address: "token2".to_owned() }, amount: 3 },
        Asset { info: AssetInfo::Native { denom: "b".to_owned() }, amount: 4 },
    ];
    let (funds, cw20s) = sort_funds(&assets);
    assert_eq!(funds.len(), 2);
    assert_eq!((funds[0].denom.as_str(), funds[0].amount), ("a", 2));
    assert_eq!((funds[1].denom.as_str(), funds[1].amount), ("b", 4));
    assert_eq!(cw20s.len(), 2);
    assert_eq!((cw20s[0].address.as_str(), cw20s[0].amount), ("token1", 1));
    assert_eq!((cw20s[1].address.as_str(), cw20s[1].amount), ("token2", 3));
}

#[test]
fn active_tasks_pages_in_ascending_identifier_order() {
    let mut state = fresh_state();
    register(&mut state, "gamma", "1.0");
    register(&mut state, "alpha", "1.0");
    register(&mut state, "beta", "1.0");
    assert_eq!(
        query_active_tasks(&state, None, None),
        vec!["alpha".to_owned(), "beta".to_owned(), "gamma".to_owned()],
    );
    assert_eq!(query_active_tasks(&state, None, Some(2)).len(), 2);
    assert_eq!(
        query_active_tasks(&state, Some("alpha".to_owned()), None),
        vec!["beta".to_owned(), "gamma".to_owned()],
    );
    assert_eq!(
        query_active_tasks(&state, Some("gamma".to_owned()), None),
        Vec::<String>::new(),
    );
    assert_eq!(query_active_tasks(&state, None, Some(0)).len(), 0);
}

#[test]
fn active_tasks_cursor_is_an_exclusive_key_bound() {
    let mut state = fresh_state();
    register(&mut state, "alpha", "1.0");
    register(&mut state, "beta", "1.0");
    register(&mut state, "gamma", "1.0");
    // a cursor that is no longer (or never was) a key still pages onward:
    // everything strictly greater follows
    assert_eq!(
        query_active_tasks(&state, Some("b".to_owned()), None),
        vec!["beta".to_owned(), "gamma".to_owned()],
    );
    // the natural paging-while-deleting case: remove the cursor task, then
    // continue from it
    remove_task(
        &mut state,
        true,
        "beta".to_owned(),
        Some("tasks1".to_owned()),
        Some("mgr1".to_owned()),
        false,
        Vec::new(),
    )
    .unwrap();
    assert_eq!(
        query_active_tasks(&state, Some("beta".to_owned()), None),
        vec!["gamma".to_owned()],
    );
}

#[test]
fn execute_handler_routes_to_the_command() {
    let mut state = fresh_state();
    let facts = HostFacts {
        sender_is_admin: true,
        assets_valid: true,
        addr_valid: true,
        tasks_addr: Some("tasks1".to_owned()),
        manager_addr: Some("mgr1".to_owned()),
        task_still_listed: false,
        user_balances: Vec::new(),
        owner_addr: "proxy".to_owned(),
        native_balance: Vec::new(),
        cw20_balances: Vec::new(),
    };
    let r = execute_handler(
        &mut state,
        AppExecuteMsg::RefillTask { task_hash: "ghost".to_owned(), assets: Vec::new() },
        facts,
    );
    assert!(matches!(r, Err(AppError::NotFound { task_hash }) if task_hash == "ghost"));
}

#[test]
fn client_interface_builds_calls_on_the_module() {
    let client = CronCat::new("moduleaddr".to_owned());
    assert_eq!(client.module_address(), "moduleaddr");
    let call = client.remove_task("task1".to_owned());
    assert_eq!(call.contract, "moduleaddr");
    assert!(call.funds.is_empty());
    assert!(matches!(
        call.payload,
        Payload::App(AppExecuteMsg::RemoveTask { task_hash }) if task_hash == "task1"
    ));
    let q = client.query_active_tasks(None, Some(10));
    assert_eq!(q.contract, "moduleaddr");
}

#[test]
fn error_labels_name_each_kind() {
    assert_eq!(AppError::Unauthorized.label(), "unauthorized");
    assert_eq!(AppError::NotFound { task_hash: "x".to_owned() }.label(), "task not found");
}
