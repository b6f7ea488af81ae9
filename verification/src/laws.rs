use vstd::prelude::*;

use crate::contract::{accepted_denom, bid_post, close_post, commission_of, find_coin, retract_post};
use crate::error::ContractError;
use crate::msg::{Coin, Response, TransferView};
use crate::state::Store;

verus! {

/// Across any bid — accepted or rejected — the leading amount never
/// decreases.
pub proof fn lemma_bid_monotonic_leader(
    pre: Store,
    post: Store,
    sender: Seq<char>,
    funds: Seq<Coin>,
    r: Result<Response, ContractError>,
)
    requires
        pre.inv(),
        crate::contract::bid_total(pre, sender, funds) <= u128::MAX,
        bid_post(pre, post, sender, funds, r),
    ensures
        post.highest_bid@.bid >= pre.highest_bid@.bid,
{
}

/// A bid whose cumulative total exactly ties the current leading amount is
/// rejected, reporting both amounts, and changes nothing: ties lose.
pub proof fn lemma_tied_bid_rejected(
    pre: Store,
    post: Store,
    sender: Seq<char>,
    funds: Seq<Coin>,
    r: Result<Response, ContractError>,
)
    requires
        pre.inv(),
        sender != pre.owner@,
        !pre.closed(),
        find_coin(funds, accepted_denom()) matches Some(c) && pre.recorded_bid(sender) + c.amount
            == pre.highest_bid@.bid,
        bid_post(pre, post, sender, funds, r),
    ensures
        r == Err::<Response, ContractError>(
            ContractError::InsufficientBid {
                bid: pre.highest_bid@.bid,
                highest_bid: pre.highest_bid@.bid,
            },
        ),
        post == pre,
{
}

/// The authority itself can never place a bid, whatever it attaches.
pub proof fn lemma_authority_never_bids(
    pre: Store,
    post: Store,
    funds: Seq<Coin>,
    r: Result<Response, ContractError>,
)
    requires
        bid_post(pre, post, pre.owner@, funds, r),
    ensures
        r == Err::<Response, ContractError>(ContractError::OwnerCannotBid {}),
        post == pre,
{
}

/// Once bidding has closed, every further bid fails and changes nothing.
pub proof fn lemma_closed_rejects_bid(
    pre: Store,
    post: Store,
    sender: Seq<char>,
    funds: Seq<Coin>,
    r: Result<Response, ContractError>,
)
    requires
        pre.closed(),
        sender != pre.owner@,
        bid_post(pre, post, sender, funds, r),
    ensures
        r == Err::<Response, ContractError>(ContractError::BiddingAlreadyClosed {}),
        post == pre,
{
}

/// Once bidding has closed, closing again fails and changes nothing: the
/// winner snapshot is taken at most once.
pub proof fn lemma_closed_rejects_close(
    pre: Store,
    post: Store,
    sender: String,
    r: Result<Response, ContractError>,
)
    requires
        pre.closed(),
        sender@ == pre.owner@,
        close_post(pre, post, sender, r),
    ensures
        r == Err::<Response, ContractError>(ContractError::BiddingAlreadyClosed {}),
        post == pre,
{
}

/// While bidding is still open, every retract fails and changes nothing.
pub proof fn lemma_open_rejects_retract(
    pre: Store,
    post: Store,
    sender: String,
    receiver: Option<String>,
    r: Result<Response, ContractError>,
)
    requires
        !pre.closed(),
        retract_post(pre, post, sender, receiver, r),
    ensures
        r == Err::<Response, ContractError>(ContractError::BiddingNotClosed {}),
        post == pre,
{
}

/// The recorded winner, settled at close, can never retract.
pub proof fn lemma_winner_cannot_retract(
    pre: Store,
    post: Store,
    sender: String,
    receiver: Option<String>,
    r: Result<Response, ContractError>,
)
    requires
        pre.winner matches Some(w) && w@.address == sender@,
        retract_post(pre, post, sender, receiver, r),
    ensures
        r == Err::<Response, ContractError>(ContractError::WinnerCannotRetract {}),
        post == pre,
{
}

/// An address that holds no escrow record cannot retract, and is named in
/// the error.
pub proof fn lemma_no_record_no_retract(
    pre: Store,
    post: Store,
    sender: String,
    receiver: Option<String>,
    r: Result<Response, ContractError>,
)
    requires
        pre.winner matches Some(w) && w@.address != sender@,
        !pre.has_record(sender@),
        retract_post(pre, post, sender, receiver, r),
    ensures
        r == Err::<Response, ContractError>(ContractError::NoBidFound { address: sender }),
        post == pre,
{
}

/// Commission invariant, deposit side: an accepted deposit `d` pays the
/// authority exactly `floor(d · rate)`, as the single emitted transfer — and
/// none at all when that is zero — while the full commission history
/// accumulates on the bidder's record.
pub proof fn lemma_commission_on_accepted_bid(
    pre: Store,
    post: Store,
    sender: Seq<char>,
    funds: Seq<Coin>,
    r: Result<Response, ContractError>,
)
    requires
        pre.inv(),
        crate::contract::bid_total(pre, sender, funds) <= u128::MAX,
        bid_post(pre, post, sender, funds, r),
        r is Ok,
    ensures
        find_coin(funds, accepted_denom()) matches Some(c) && {
            let comm = commission_of(c.amount);
            &&& r matches Ok(resp) && resp@.messages == (if comm > 0 {
                seq![
                    TransferView {
                        to_address: pre.owner@,
                        amount: comm as u128,
                        denom: accepted_denom(),
                    },
                ]
            } else {
                Seq::<TransferView>::empty()
            })
            &&& post.has_record(sender)
            &&& post.record_of(sender).commission == pre.recorded_commission(sender) + comm
        },
{
}

/// Commission invariant, settlement side: a successful close pays the
/// authority the leading amount minus the commission already accumulated on
/// the winner's deposits — never the raw leading amount — and freezes the
/// leading bid as the winner.
pub proof fn lemma_close_payout(
    pre: Store,
    post: Store,
    sender: String,
    r: Result<Response, ContractError>,
)
    requires
        pre.inv(),
        close_post(pre, post, sender, r),
        r is Ok,
    ensures
        ({
            let payout = pre.highest_bid@.bid - pre.highest_bid@.commission;
            r matches Ok(resp) && resp@.messages == (if payout > 0 {
                seq![
                    TransferView {
                        to_address: pre.owner@,
                        amount: payout as u128,
                        denom: accepted_denom(),
                    },
                ]
            } else {
                Seq::<TransferView>::empty()
            })
        }),
        post.winner matches Some(w) && w@ == pre.highest_bid@,
{
}

} // verus!
