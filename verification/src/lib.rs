pub mod contract;
pub mod decimal;
pub mod error;
pub mod laws;
pub mod msg;
pub mod state;

use vstd::prelude::*;

use crate::contract::{bid_post, bid_total, close_post, retract_post};
use crate::error::ContractError;
use crate::msg::{Coin, ExecMsg, InstantiateMsg, QueryMsg, QueryResp, Response};
use crate::state::{StateView, Store};

verus! {

/// Initializes a fresh auction: the authority is the one supplied in the
/// message, or the initializing caller; the leading bid is seeded to the
/// caller at zero; no winner, no escrow records.
pub fn instantiate(caller: String, msg: InstantiateMsg) -> (s: Store)
    ensures
        s.owner == (match msg.owner {
            Some(o) => o,
            None => caller,
        }),
        s.highest_bid@ == (StateView { address: caller@, bid: 0, commission: 0 }),
        s.winner is None,
        s.bids@.len() == 0,
        s.inv(),
{
    contract::instantiate(caller, msg.owner)
}

/// Routes a mutating operation to its transition. Each arm's exact behaviour
/// — which error on which state and input, and the full effect of a success —
/// is the corresponding operation's postcondition. Whatever the operation,
/// the store stays well formed and the leading amount never decreases.
pub fn execute(store: &mut Store, sender: String, funds: Vec<Coin>, msg: ExecMsg) -> (r: Result<
    Response,
    ContractError,
>)
    requires
        old(store).inv(),
        msg is Bid ==> bid_total(*old(store), sender@, funds@) <= u128::MAX,
    ensures
        match msg {
            ExecMsg::Bid {} => bid_post(*old(store), *final(store), sender@, funds@, r),
            ExecMsg::Close {} => close_post(*old(store), *final(store), sender, r),
            ExecMsg::Retract { receiver } => retract_post(
                *old(store),
                *final(store),
                sender,
                receiver,
                r,
            ),
        },
        final(store).inv(),
        final(store).highest_bid@.bid >= old(store).highest_bid@.bid,
{
    match msg {
        ExecMsg::Bid {} => contract::bid(store, sender, funds),
        ExecMsg::Close {} => contract::close(store, sender),
        ExecMsg::Retract { receiver } => contract::retract(store, sender, receiver),
    }
}

/// Routes a read-only operation to its projection. Every answer reflects the
/// store exactly: the leading record, the escrow record the state machine
/// itself would read (zero if none), or the winner snapshot (empty and zero
/// while bidding is open).
pub fn query(store: &Store, msg: QueryMsg) -> (r: QueryResp)
    requires
        store.inv(),
    ensures
        match msg {
            QueryMsg::HighestBid {} => r matches QueryResp::HighestBid(h) && h.address@
                == store.highest_bid@.address && h.bid == store.highest_bid@.bid,
            QueryMsg::AddressBid { address } => r matches QueryResp::AddressBid(a) && a.bid
                == store.recorded_bid(address@),
            QueryMsg::Winner {} => r matches QueryResp::Winner(w) && (match store.winner {
                Some(wr) => w.address@ == wr@.address && w.bid == wr@.bid,
                None => w.address@ == Seq::<char>::empty() && w.bid == 0,
            }),
        },
{
    match msg {
        QueryMsg::HighestBid {} => QueryResp::HighestBid(contract::highest_bid(store)),
        QueryMsg::AddressBid { address } => QueryResp::AddressBid(
            contract::address_bid(store, address),
        ),
        QueryMsg::Winner {} => QueryResp::Winner(contract::winner(store)),
    }
}

} // verus!
