//! The continuation handlers. A continuation runs inside the same top-level
//! transaction as its triggering dispatch, strictly after that dispatch
//! reports success, and performs the registry mutation that would be unsafe
//! to do optimistically: a task is recorded as active only once its creation
//! is confirmed.

use vstd::prelude::*;

use crate::actions::{OutMsg, Payload, Response, WasmCall};
use crate::error::AppError;
use crate::execute::is_user_withdraw;
use crate::funds::Cw20Coin;
use crate::order::first_after;
use crate::state::ModuleState;

verus! {

/// One key/value attribute of an emitted event.
pub struct EventAttribute {
    pub key: String,
    pub value: String,
}

/// One event emitted during the completed downstream execution.
pub struct Event {
    pub ty: String,
    pub attributes: Vec<EventAttribute>,
}

/// Whether `e` is a creation event: a contract event that announces the
/// creation action.
pub open spec fn is_create_event(e: Event) -> bool {
    e.ty@ == "wasm"@ && exists|j: int|
        0 <= j < e.attributes@.len() && #[trigger] e.attributes@[j].key@ == "action"@
            && e.attributes@[j].value@ == "create_task"@
}

/// The first creation event in an emitted run of events.
pub open spec fn first_create_event(events: Seq<Event>) -> Option<Event>
    decreases events.len(),
{
    if events.len() == 0 {
        None
    } else if is_create_event(events[0]) {
        Some(events[0])
    } else {
        first_create_event(events.drop_first())
    }
}

/// The value of the first attribute named `key`, if any.
pub open spec fn first_attr_value(attrs: Seq<EventAttribute>, key: Seq<char>) -> Option<Seq<char>>
    decreases attrs.len(),
{
    if attrs.len() == 0 {
        None
    } else if attrs[0].key@ == key {
        Some(attrs[0].value@)
    } else {
        first_attr_value(attrs.drop_first(), key)
    }
}

/// What a creation completion announces: the generated task identifier and
/// the scheduler version that created it, read from the documented marker
/// keys of the first creation event. `None` when the events carry no such
/// announcement.
pub open spec fn extracted(events: Seq<Event>) -> Option<(Seq<char>, Seq<char>)> {
    match first_create_event(events) {
        Some(ev) => match (
            first_attr_value(ev.attributes@, "task_hash"@),
            first_attr_value(ev.attributes@, "task_version"@),
        ) {
            (Some(h), Some(v)) => Some((h, v)),
            _ => None,
        },
        None => None,
    }
}

proof fn lemma_first_create_event_at(events: Seq<Event>, i: int)
    requires
        0 <= i < events.len(),
        is_create_event(events[i]),
        forall|j: int| 0 <= j < i ==> !is_create_event(#[trigger] events[j]),
    ensures
        first_create_event(events) == Some(events[i]),
    decreases i,
{
    if i > 0 {
        assert(!is_create_event(events[0]));
        assert(events.drop_first()[i - 1] == events[i]);
        assert(forall|j: int|
            0 <= j < i - 1 ==> #[trigger] events.drop_first()[j] == events[j + 1]);
        lemma_first_create_event_at(events.drop_first(), i - 1);
    }
}

proof fn lemma_first_create_event_none(events: Seq<Event>)
    requires
        forall|j: int| 0 <= j < events.len() ==> !is_create_event(#[trigger] events[j]),
    ensures
        first_create_event(events) is None,
    decreases events.len(),
{
    if events.len() > 0 {
        assert(forall|j: int|
            0 <= j < events.drop_first().len() ==> #[trigger] events.drop_first()[j] == events[j
                + 1]);
        lemma_first_create_event_none(events.drop_first());
    }
}

proof fn lemma_first_attr_value_at(attrs: Seq<EventAttribute>, key: Seq<char>, i: int)
    requires
        0 <= i < attrs.len(),
        attrs[i].key@ == key,
        forall|j: int| 0 <= j < i ==> #[trigger] attrs[j].key@ != key,
    ensures
        first_attr_value(attrs, key) == Some(attrs[i].value@),
    decreases i,
{
    if i > 0 {
        assert(attrs.drop_first()[i - 1] == attrs[i]);
        assert(forall|j: int| 0 <= j < i - 1 ==> #[trigger] attrs.drop_first()[j] == attrs[j + 1]);
        lemma_first_attr_value_at(attrs.drop_first(), key, i - 1);
    }
}

proof fn lemma_first_attr_value_none(attrs: Seq<EventAttribute>, key: Seq<char>)
    requires
        forall|j: int| 0 <= j < attrs.len() ==> #[trigger] attrs[j].key@ != key,
    ensures
        first_attr_value(attrs, key) is None,
    decreases attrs.len(),
{
    if attrs.len() > 0 {
        assert(forall|j: int|
            0 <= j < attrs.drop_first().len() ==> #[trigger] attrs.drop_first()[j] == attrs[j + 1]);
        lemma_first_attr_value_none(attrs.drop_first(), key);
    }
}

/// The value of the first attribute named `key`, if any.
fn find_attr(attrs: &Vec<EventAttribute>, key: &String) -> (r: Option<String>)
    ensures
        match r {
            Some(v) => first_attr_value(attrs@, key@) == Some(v@),
            None => first_attr_value(attrs@, key@) is None,
        },
{
    let n: usize = attrs.len();
    for i in 0..n
        invariant
            n == attrs@.len(),
            forall|j: int| 0 <= j < i ==> #[trigger] attrs@[j].key@ != key@,
    {
        if attrs[i].key == *key {
            proof {
                lemma_first_attr_value_at(attrs@, key@, i as int);
            }
            return Some(attrs[i].value.clone());
        }
    }
    proof {
        lemma_first_attr_value_none(attrs@, key@);
    }
    None
}

/// Whether `e` is a creation event.
fn check_create_event(e: &Event) -> (r: bool)
    ensures
        r == is_create_event(*e),
{
    let wasm = "wasm".to_owned();
    if !(e.ty == wasm) {
        return false;
    }
    let action = "action".to_owned();
    let create = "create_task".to_owned();
    let n: usize = e.attributes.len();
    for i in 0..n
        invariant
            n == e.attributes@.len(),
            forall|j: int|
                0 <= j < i ==> !(#[trigger] e.attributes@[j].key@ == "action"@
                    && e.attributes@[j].value@ == "create_task"@),
            action@ == "action"@,
            create@ == "create_task"@,
            e.ty@ == "wasm"@,
    {
        if e.attributes[i].key == action && e.attributes[i].value == create {
            return true;
        }
    }
    false
}

/// Index of the first creation event, if any.
fn find_create_event(events: &Vec<Event>) -> (r: Option<usize>)
    ensures
        match r {
            Some(i) => i < events@.len() && first_create_event(events@) == Some(
                events@[i as int],
            ),
            None => first_create_event(events@) is None,
        },
{
    let n: usize = events.len();
    for i in 0..n
        invariant
            n == events@.len(),
            forall|j: int| 0 <= j < i ==> !is_create_event(#[trigger] events@[j]),
    {
        if check_create_event(&events[i]) {
            proof {
                lemma_first_create_event_at(events@, i as int);
            }
            return Some(i);
        }
    }
    proof {
        lemma_first_create_event_none(events@);
    }
    None
}

/// Everything `create_task_reply` promises. The handler answers the
/// completion of a creation dispatch: it reads the generated identifier and
/// the scheduler version from the events, records the task, and hands the
/// identifier back as completion data. A completion that announces no
/// creation is malformed; one that announces an identifier already on record
/// signals a duplicate delivery and is rejected without overwriting.
pub open spec fn create_task_reply_post(
    pre: ModuleState,
    post: ModuleState,
    events: Vec<Event>,
    r: Result<Response, AppError>,
) -> bool {
    match (r, extracted(events@)) {
        (Ok(resp), Some(hv)) => {
            &&& !pre.tasks@.contains_key(hv.0)
            &&& post.tasks@ =~= pre.tasks@.insert(hv.0, hv.1)
            &&& post.tasks.order() =~= pre.tasks.order().insert(
                first_after(pre.tasks.order(), hv.0),
                hv.0,
            )
            &&& post.config == pre.config
            &&& post.removed_task_manager == pre.removed_task_manager
            &&& resp.msgs@.len() == 0
            &&& resp.data matches Some(d) && d@ == hv.0
        },
        (Ok(_), None) => false,
        (Err(e), Some(hv)) => {
            &&& post == pre
            &&& pre.tasks@.contains_key(hv.0)
            &&& e matches AppError::TaskAlreadyExists { task_hash: t } && t@ == hv.0
        },
        (Err(e), None) => {
            &&& post == pre
            &&& e is MalformedReply
        },
    }
}

/// Record a task whose creation the scheduler has confirmed. `events` are
/// the events the completed dispatch emitted.
pub fn create_task_reply(state: &mut ModuleState, events: Vec<Event>) -> (r: Result<
    Response,
    AppError,
>)
    requires
        old(state).wf(),
    ensures
        final(state).wf(),
        create_task_reply_post(*old(state), *final(state), events, r),
{
    let ev = match find_create_event(&events) {
        Some(i) => &events[i],
        None => { return Err(AppError::MalformedReply) },
    };
    let task_hash = match find_attr(&ev.attributes, &"task_hash".to_owned()) {
        Some(h) => h,
        None => { return Err(AppError::MalformedReply) },
    };
    let task_version = match find_attr(&ev.attributes, &"task_version".to_owned()) {
        Some(v) => v,
        None => { return Err(AppError::MalformedReply) },
    };
    let data = task_hash.clone();
    match state.tasks.insert(task_hash, task_version) {
        Ok(()) => Ok(Response { msgs: Vec::new(), data: Some(data) }),
        Err(e) => Err(e),
    }
}

/// Everything `task_remove_reply` promises. The handler answers the
/// completion of a removal dispatch: it consumes the pending-removal marker
/// and, exactly when the owning account still has locked balance on the
/// fund-custody service the marker names, dispatches a sweep of that
/// balance.
pub open spec fn task_remove_reply_post(
    pre: ModuleState,
    post: ModuleState,
    user_balances: Vec<Cw20Coin>,
    r: Result<Response, AppError>,
) -> bool {
    match r {
        Ok(resp) => match pre.removed_task_manager {
            Some(mgr) => {
                &&& post.removed_task_manager is None
                &&& post.tasks == pre.tasks
                &&& post.config == pre.config
                &&& resp.data is None
                &&& if user_balances@.len() > 0 {
                    resp.msgs@.len() == 1 && is_user_withdraw(resp.msgs@[0], mgr@)
                } else {
                    resp.msgs@.len() == 0
                }
            },
            None => false,
        },
        Err(e) => {
            &&& post == pre
            &&& pre.removed_task_manager is None
            &&& e is MissingRemovalMarker
        },
    }
}

/// Finish a removal whose cancellation the scheduler has confirmed.
/// `user_balances` is the host's capped reading of the owning account's
/// locked balance on the fund-custody service the pending-removal marker
/// names.
pub fn task_remove_reply(state: &mut ModuleState, user_balances: Vec<Cw20Coin>) -> (r: Result<
    Response,
    AppError,
>)
    requires
        old(state).wf(),
    ensures
        final(state).wf(),
        task_remove_reply_post(*old(state), *final(state), user_balances, r),
{
    let mgr = match &state.removed_task_manager {
        Some(m) => m.clone(),
        None => { return Err(AppError::MissingRemovalMarker) },
    };
    state.removed_task_manager = None;
    if user_balances.len() > 0 {
        let mut msgs: Vec<OutMsg> = Vec::new();
        msgs.push(
            OutMsg::Wasm {
                call: WasmCall {
                    contract: mgr,
                    payload: Payload::UserWithdraw,
                    funds: Vec::new(),
                },
                reply_id: None,
            },
        );
        Ok(Response { msgs, data: None })
    } else {
        Ok(Response::empty())
    }
}

} // verus!
