//! The two asset classes the module moves: native coins, which can be
//! attached directly to an outbound call, and secondary fungible tokens,
//! which must be routed through a transfer-and-notify call to the target's
//! temporary-balance inlet.

use vstd::prelude::*;

verus! {

/// An amount of a native asset, identified by its denomination.
pub struct Coin {
    pub denom: String,
    pub amount: u128,
}

/// An amount of a secondary fungible token, identified by the address of the
/// token contract that manages it.
pub struct Cw20Coin {
    pub address: String,
    pub amount: u128,
}

/// Which asset class an asset belongs to, and its identity within the class.
pub enum AssetInfo {
    Native { denom: String },
    Cw20 { address: String },
}

/// An amount of one asset, as a caller lists it in a funding request.
pub struct Asset {
    pub info: AssetInfo,
    pub amount: u128,
}

/// A transfer in the mathematical model: the asset's identity and the amount
/// moved.
pub type Transfer = (Seq<char>, u128);

/// The native transfers a list of assets calls for, in listing order.
pub open spec fn native_of(s: Seq<Asset>) -> Seq<Transfer>
    decreases s.len(),
{
    if s.len() == 0 {
        Seq::empty()
    } else {
        let init = native_of(s.drop_last());
        match s.last().info {
            AssetInfo::Native { denom } => init.push((denom@, s.last().amount)),
            AssetInfo::Cw20 { .. } => init,
        }
    }
}

/// The secondary-asset transfers a list of assets calls for, in listing
/// order.
pub open spec fn cw20_of(s: Seq<Asset>) -> Seq<Transfer>
    decreases s.len(),
{
    if s.len() == 0 {
        Seq::empty()
    } else {
        let init = cw20_of(s.drop_last());
        match s.last().info {
            AssetInfo::Native { .. } => init,
            AssetInfo::Cw20 { address } => init.push((address@, s.last().amount)),
        }
    }
}

/// The native coins `c` are exactly the transfers `m`, in the same order.
pub open spec fn coins_match(c: Seq<Coin>, m: Seq<Transfer>) -> bool {
    &&& c.len() == m.len()
    &&& forall|i: int| #![trigger c[i]] 0 <= i < c.len() ==> c[i].denom@ == m[i].0 && c[i].amount == m[i].1
}

/// The token amounts `c` are exactly the transfers `m`, in the same order.
pub open spec fn cw20s_match(c: Seq<Cw20Coin>, m: Seq<Transfer>) -> bool {
    &&& c.len() == m.len()
    &&& forall|i: int| #![trigger c[i]] 0 <= i < c.len() ==> c[i].address@ == m[i].0 && c[i].amount == m[i].1
}

/// Sum of the amounts moved by a list of transfers.
pub open spec fn transfer_total(s: Seq<Transfer>) -> int
    decreases s.len(),
{
    if s.len() == 0 {
        0
    } else {
        transfer_total(s.drop_last()) + s.last().1
    }
}

/// Sum of the amounts a list of assets carries, over both classes.
pub open spec fn asset_total(s: Seq<Asset>) -> int
    decreases s.len(),
{
    if s.len() == 0 {
        0
    } else {
        asset_total(s.drop_last()) + s.last().amount
    }
}

/// Splitting a funding request loses nothing and invents nothing: the native
/// transfers and the secondary transfers together move exactly the total the
/// assets carry.
pub proof fn lemma_split_conserves_total(s: Seq<Asset>)
    ensures
        transfer_total(native_of(s)) + transfer_total(cw20_of(s)) == asset_total(s),
    decreases s.len(),
{
    if s.len() > 0 {
        lemma_split_conserves_total(s.drop_last());
        match s.last().info {
            AssetInfo::Native { .. } => {
                assert(native_of(s).drop_last() == native_of(s.drop_last()));
            }
            AssetInfo::Cw20 { .. } => {
                assert(cw20_of(s).drop_last() == cw20_of(s.drop_last()));
            }
        }
    }
}

/// Split a funding request into the coins to attach directly and the token
/// amounts to route through the transfer-and-notify inlet, keeping the
/// listing order within each class.
pub fn sort_funds(assets: &Vec<Asset>) -> (r: (Vec<Coin>, Vec<Cw20Coin>))
    ensures
        coins_match(r.0@, native_of(assets@)),
        cw20s_match(r.1@, cw20_of(assets@)),
{
    let mut funds: Vec<Coin> = Vec::new();
    let mut cw20s: Vec<Cw20Coin> = Vec::new();
    let n: usize = assets.len();
    for i in 0..n
        invariant
            n == assets@.len(),
            coins_match(funds@, native_of(assets@.take(i as int))),
            cw20s_match(cw20s@, cw20_of(assets@.take(i as int))),
    {
        proof {
            assert(assets@.take(i + 1).drop_last() =~= assets@.take(i as int));
            assert(assets@.take(i + 1).last() == assets@[i as int]);
        }
        let asset = &assets[i];
        match &asset.info {
            AssetInfo::Native { denom } => {
                funds.push(Coin { denom: denom.clone(), amount: asset.amount });
            }
            AssetInfo::Cw20 { address } => {
                cw20s.push(Cw20Coin { address: address.clone(), amount: asset.amount });
            }
        }
    }
    proof {
        assert(assets@.take(n as int) =~= assets@);
    }
    (funds, cw20s)
}

} // verus!
