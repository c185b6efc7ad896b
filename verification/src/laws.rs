//! The library's global guarantees, stated and proved over the same spec
//! functions the handlers' contracts use: what a run of lifecycle events
//! leaves in the registry, and that fund routing conserves every amount a
//! request carries.

use vstd::prelude::*;

use crate::actions::{OutMsg, Payload, Response};
use crate::execute::{create_task_post, is_cw20_send, is_cw20_transfer, move_funds_post,
    refill_task_post};
use crate::state::ModuleState;
use crate::funds::{asset_total, coins_match, cw20_of, lemma_split_conserves_total, native_of,
    transfer_total, Asset, Coin, Cw20Coin, Transfer};

verus! {

/// A registry-changing event, as the handlers' contracts describe them: a
/// processed creation continuation, or a processed removal request.
pub enum TaskEvent {
    /// A creation continuation announced this identifier and version. When
    /// the identifier is already on record the continuation fails and
    /// changes nothing: it never overwrites.
    Created { task_hash: Seq<char>, version: Seq<char> },
    /// A removal request deleted this identifier's record.
    Removed { task_hash: Seq<char> },
}

/// How one event changes the registry map, exactly as `create_task_reply`
/// and `remove_task` ensure it.
pub open spec fn apply_event(
    m: Map<Seq<char>, Seq<char>>,
    e: TaskEvent,
) -> Map<Seq<char>, Seq<char>> {
    match e {
        TaskEvent::Created { task_hash, version } => if m.contains_key(task_hash) {
            m
        } else {
            m.insert(task_hash, version)
        },
        TaskEvent::Removed { task_hash } => m.remove(task_hash),
    }
}

/// The registry map a run of events builds from `m`.
pub open spec fn apply_events(
    m: Map<Seq<char>, Seq<char>>,
    events: Seq<TaskEvent>,
) -> Map<Seq<char>, Seq<char>>
    decreases events.len(),
{
    if events.len() == 0 {
        m
    } else {
        apply_event(apply_events(m, events.drop_last()), events.last())
    }
}

/// Whether a run of events leaves `task_hash` active: some creation for it
/// was processed and no removal for it has been processed since.
pub open spec fn active_after(events: Seq<TaskEvent>, task_hash: Seq<char>) -> bool
    decreases events.len(),
{
    if events.len() == 0 {
        false
    } else {
        match events.last() {
            TaskEvent::Created { task_hash: h, .. } => h == task_hash || active_after(
                events.drop_last(),
                task_hash,
            ),
            TaskEvent::Removed { task_hash: h } => h != task_hash && active_after(
                events.drop_last(),
                task_hash,
            ),
        }
    }
}

/// A task record exists exactly when a creation continuation for its
/// identifier was processed and no removal for it has been processed since.
pub proof fn lemma_registry_history(events: Seq<TaskEvent>, task_hash: Seq<char>)
    ensures
        apply_events(Map::empty(), events).contains_key(task_hash) <==> active_after(
            events,
            task_hash,
        ),
    decreases events.len(),
{
    if events.len() > 0 {
        lemma_registry_history(events.drop_last(), task_hash);
    }
}

/// Sum of the amounts a list of coins carries.
pub open spec fn coin_seq_total(s: Seq<Coin>) -> int
    decreases s.len(),
{
    if s.len() == 0 {
        0
    } else {
        coin_seq_total(s.drop_last()) + s.last().amount
    }
}

/// Sum of the amounts a list of token balances carries.
pub open spec fn cw20_seq_total(s: Seq<Cw20Coin>) -> int
    decreases s.len(),
{
    if s.len() == 0 {
        0
    } else {
        cw20_seq_total(s.drop_last()) + s.last().amount
    }
}

/// The amount one outbound message moves out of the account's custody: the
/// attached coins plus any token amount it transfers.
pub open spec fn msg_moved(m: OutMsg) -> int {
    match m {
        OutMsg::Wasm { call, .. } => coin_seq_total(call.funds@) + (match call.payload {
            Payload::Cw20Send { amount, .. } => amount as int,
            Payload::Cw20Transfer { amount, .. } => amount as int,
            _ => 0,
        }),
        OutMsg::BankSend { amount, .. } => coin_seq_total(amount@),
    }
}

/// The total amount a response's messages move.
pub open spec fn moved_total(msgs: Seq<OutMsg>) -> int
    decreases msgs.len(),
{
    if msgs.len() == 0 {
        0
    } else {
        moved_total(msgs.drop_last()) + msg_moved(msgs.last())
    }
}

/// Coins that match a list of transfers carry the same total.
pub proof fn lemma_coins_match_total(c: Seq<Coin>, m: Seq<Transfer>)
    requires
        coins_match(c, m),
    ensures
        coin_seq_total(c) == transfer_total(m),
    decreases c.len(),
{
    if c.len() > 0 {
        let k: int = c.len() - 1;
        assert(c[k].denom@ == m[k].0 && c[k].amount == m[k].1);
        assert(coins_match(c.drop_last(), m.drop_last()));
        lemma_coins_match_total(c.drop_last(), m.drop_last());
        assert(c.last() == c[k] && m.last() == m[k]);
    }
}

proof fn lemma_sends_total(
    msgs: Seq<OutMsg>,
    cw20s: Seq<Transfer>,
    mgr: Seq<char>,
    inner: Seq<u8>,
    j: int,
)
    requires
        0 <= j <= cw20s.len(),
        cw20s.len() <= msgs.len(),
        forall|i: int|
            0 <= i < cw20s.len() ==> is_cw20_send(#[trigger] msgs[i], cw20s[i].0, mgr, cw20s[i].1, inner),
    ensures
        moved_total(msgs.take(j)) == transfer_total(cw20s.take(j)),
    decreases j,
{
    if j > 0 {
        lemma_sends_total(msgs, cw20s, mgr, inner, j - 1);
        assert(msgs.take(j).drop_last() =~= msgs.take(j - 1));
        assert(cw20s.take(j).drop_last() =~= cw20s.take(j - 1));
        assert(is_cw20_send(msgs[j - 1], cw20s[j - 1].0, mgr, cw20s[j - 1].1, inner));
        assert(msgs.take(j).last() == msgs[j - 1]);
        assert(cw20s.take(j).last() == cw20s[j - 1]);
    }
}

/// A confirmed creation withdraws exactly what the request funds it with:
/// the native amounts attached to the creation dispatch and the secondary
/// amounts routed through the transfer-and-notify inlet together move the
/// asset list's whole total, so nothing stays behind in the module's own
/// custody.
pub proof fn lemma_create_task_forwards_all(
    sender_is_admin: bool,
    task: Vec<u8>,
    assets: Vec<Asset>,
    assets_valid: bool,
    tasks_addr: Option<String>,
    manager_addr: Option<String>,
    resp: Response,
)
    requires
        create_task_post(
            sender_is_admin,
            task,
            assets,
            assets_valid,
            tasks_addr,
            manager_addr,
            Ok(resp),
        ),
    ensures
        moved_total(resp.msgs@) == asset_total(assets@),
{
    let cw20s = cw20_of(assets@);
    let native = native_of(assets@);
    let k = cw20s.len() as int;
    if k > 0 {
        let mgr = manager_addr.unwrap();
        lemma_sends_total(resp.msgs@, cw20s, mgr@, crate::hooks::refill_temp_hook_bytes(), k);
    } else {
        lemma_sends_total(resp.msgs@, cw20s, Seq::empty(), crate::hooks::refill_temp_hook_bytes(), 0);
    }
    assert(resp.msgs@.drop_last() =~= resp.msgs@.take(k));
    assert(cw20s.take(k) =~= cw20s);
    let last = resp.msgs@.last();
    assert(resp.msgs@[k] == last);
    match last {
        OutMsg::Wasm { call, .. } => {
            lemma_coins_match_total(call.funds@, native);
        },
        OutMsg::BankSend { .. } => {},
    }
    lemma_split_conserves_total(assets@);
}

/// A refill withdraws exactly what the request funds it with: the native
/// amounts attached to the refill call and the secondary amounts routed
/// through the transfer-and-notify inlet together move the asset list's
/// whole total.
pub proof fn lemma_refill_task_forwards_all(
    pre: ModuleState,
    sender_is_admin: bool,
    task_hash: String,
    assets: Vec<Asset>,
    assets_valid: bool,
    manager_addr: Option<String>,
    resp: Response,
)
    requires
        refill_task_post(
            pre,
            sender_is_admin,
            task_hash,
            assets,
            assets_valid,
            manager_addr,
            Ok(resp),
        ),
    ensures
        moved_total(resp.msgs@) == asset_total(assets@),
{
    let cw20s = cw20_of(assets@);
    let native = native_of(assets@);
    let k = cw20s.len() as int;
    let mgr = manager_addr.unwrap();
    lemma_sends_total(
        resp.msgs@,
        cw20s,
        mgr@,
        crate::hooks::refill_task_hook_bytes(task_hash@),
        k,
    );
    assert(cw20s.take(k) =~= cw20s);
    if native.len() > 0 {
        assert(resp.msgs@.drop_last() =~= resp.msgs@.take(k));
        let last = resp.msgs@.last();
        assert(resp.msgs@[k] == last);
        match last {
            OutMsg::Wasm { call, .. } => {
                lemma_coins_match_total(call.funds@, native);
            },
            OutMsg::BankSend { .. } => {},
        }
    } else {
        assert(resp.msgs@.take(k) =~= resp.msgs@);
        assert(transfer_total(native) == 0);
    }
    lemma_split_conserves_total(assets@);
}

proof fn lemma_transfers_total(
    msgs: Seq<OutMsg>,
    base: int,
    cw20s: Seq<Cw20Coin>,
    owner: Seq<char>,
    j: int,
)
    requires
        0 <= base,
        0 <= j <= cw20s.len(),
        base + cw20s.len() <= msgs.len(),
        forall|i: int|
            base <= i < base + cw20s.len() ==> is_cw20_transfer(
                #[trigger] msgs[i],
                cw20s[i - base].address@,
                owner,
                cw20s[i - base].amount,
            ),
    ensures
        moved_total(msgs.take(base + j)) == moved_total(msgs.take(base)) + cw20_seq_total(
            cw20s.take(j),
        ),
    decreases j,
{
    if j > 0 {
        lemma_transfers_total(msgs, base, cw20s, owner, j - 1);
        assert(msgs.take(base + j).drop_last() =~= msgs.take(base + j - 1));
        assert(cw20s.take(j).drop_last() =~= cw20s.take(j - 1));
        assert(is_cw20_transfer(msgs[base + j - 1], cw20s[j - 1].address@, owner, cw20s[j - 1].amount));
        assert(msgs.take(base + j).last() == msgs[base + j - 1]);
        assert(cw20s.take(j).last() == cw20s[j - 1]);
    }
}

/// A fund sweep moves the module's whole residual balance, native and
/// tokens, to the owning account: what it moves is exactly the balances the
/// host read, leaving the module's balance at zero.
pub proof fn lemma_move_funds_sweeps_all(
    sender_is_admin: bool,
    owner_addr: String,
    native_balance: Vec<Coin>,
    cw20_balances: Vec<Cw20Coin>,
    resp: Response,
)
    requires
        move_funds_post(sender_is_admin, owner_addr, native_balance, cw20_balances, Ok(resp)),
    ensures
        moved_total(resp.msgs@) == coin_seq_total(native_balance@) + cw20_seq_total(
            cw20_balances@,
        ),
{
    let base: int = if native_balance@.len() > 0 {
        1
    } else {
        0
    };
    let n = cw20_balances@.len() as int;
    lemma_transfers_total(resp.msgs@, base, cw20_balances@, owner_addr@, n);
    assert(resp.msgs@.take(base + n) =~= resp.msgs@);
    assert(cw20_balances@.take(n) =~= cw20_balances@);
    if native_balance@.len() > 0 {
        assert(resp.msgs@.take(1).drop_last() =~= resp.msgs@.take(0));
        assert(resp.msgs@.take(1).last() == resp.msgs@[0]);
        assert(moved_total(resp.msgs@.take(0)) == 0);
    } else {
        assert(moved_total(resp.msgs@.take(0)) == 0);
    }
}

} // verus!
