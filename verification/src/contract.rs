use vstd::prelude::*;
use vstd::arithmetic::div_mod::{
    lemma_div_is_ordered, lemma_div_by_multiple, lemma_fundamental_div_mod,
    lemma_hoist_over_denominator,
};
use vstd::arithmetic::mul::{
    lemma_mul_inequality, lemma_mul_is_associative, lemma_mul_is_commutative,
    lemma_mul_is_distributive_add_other_way,
};

use crate::decimal::{dec_of, u128_to_decimal};
use crate::error::ContractError;
use crate::msg::{
    AddressBidResp, Attribute, AttributeView, Coin, CoinView, HighestBidResp, Response,
    ResponseView, Transfer, TransferView, WinnerResp,
};
use crate::state::{find_record, lemma_record_at, State, StateView, Store};

verus! {

/// Commission rate, as a percentage of each accepted deposit. Setting it to
/// zero turns commission off entirely: no commission is ever charged or paid.
pub const COMMISSION_PERCENT: u128 = 10;

/// The single denomination in which deposits are accepted.
pub open spec fn accepted_denom() -> Seq<char> {
    "atom"@
}

/// The accepted denomination as an owned string.
pub fn accepted_denom_string() -> (s: String)
    ensures
        s@ == accepted_denom(),
{
    "atom".to_owned()
}

/// The commission charged on one deposit: the commission rate applied to the
/// amount, rounded down.
pub open spec fn commission_of(d: u128) -> int {
    (d * COMMISSION_PERCENT) / 100
}

/// The commission on a deposit never exceeds the deposit.
pub proof fn lemma_commission_le_deposit(d: u128)
    ensures
        0 <= commission_of(d) <= d,
{
    assert(d * COMMISSION_PERCENT <= d * 100) by {
        lemma_mul_inequality(COMMISSION_PERCENT as int, 100, d as int);
        lemma_mul_is_commutative(d as int, COMMISSION_PERCENT as int);
        lemma_mul_is_commutative(d as int, 100);
    }
    assert((d * COMMISSION_PERCENT) / 100 <= (d * 100) / 100) by {
        lemma_div_is_ordered(d * COMMISSION_PERCENT, d * 100, 100);
    }
    assert((d * 100) / 100 == d) by {
        lemma_div_by_multiple(d as int, 100);
    }
    assert(0 <= commission_of(d)) by {
        vstd::arithmetic::div_mod::lemma_div_pos_is_pos(d * COMMISSION_PERCENT, 100);
        vstd::arithmetic::mul::lemma_mul_nonnegative(d as int, COMMISSION_PERCENT as int);
    }
}

/// Computes the commission on one deposit without overflow: the quotient and
/// remainder by one hundred are scaled separately.
fn compute_commission(d: u128) -> (c: u128)
    ensures
        c == commission_of(d),
        c <= d,
{
    proof {
        lemma_commission_le_deposit(d);
    }
    let q = d / 100;
    let r = d % 100;
    proof {
        assert(q <= u128::MAX / 100) by {
            lemma_div_is_ordered(d as int, u128::MAX as int, 100);
        }
        assert(q * COMMISSION_PERCENT <= (u128::MAX / 100) * COMMISSION_PERCENT) by {
            lemma_mul_inequality(q as int, (u128::MAX / 100) as int, COMMISSION_PERCENT as int);
        }
        assert(d == 100 * (d as int / 100) + d as int % 100) by {
            lemma_fundamental_div_mod(d as int, 100);
        }
        assert(d * COMMISSION_PERCENT == (100 * q) * COMMISSION_PERCENT + r * COMMISSION_PERCENT) by {
            lemma_mul_is_distributive_add_other_way(
                COMMISSION_PERCENT as int,
                100 * (q as int),
                r as int,
            );
        }
        assert((100 * q) * COMMISSION_PERCENT == (q * COMMISSION_PERCENT) * 100) by {
            lemma_mul_is_associative(100, q as int, COMMISSION_PERCENT as int);
            lemma_mul_is_commutative(100, (q as int) * (COMMISSION_PERCENT as int));
        }
        assert((r * COMMISSION_PERCENT) / 100 + q * COMMISSION_PERCENT
            == (r * COMMISSION_PERCENT + (q * COMMISSION_PERCENT) * 100) / 100) by {
            lemma_hoist_over_denominator(
                (r as int) * (COMMISSION_PERCENT as int),
                (q as int) * (COMMISSION_PERCENT as int),
                100,
            );
        }
    }
    q * COMMISSION_PERCENT + (r * COMMISSION_PERCENT) / 100
}

/// The first payment in the given denomination, if any.
pub open spec fn find_coin(funds: Seq<Coin>, d: Seq<char>) -> Option<CoinView>
    decreases funds.len(),
{
    if funds.len() == 0 {
        None
    } else if funds[0]@.denom == d {
        Some(funds[0]@)
    } else {
        find_coin(funds.drop_first(), d)
    }
}

/// `find_coin` selects the first matching payment.
proof fn lemma_find_coin_at(funds: Seq<Coin>, d: Seq<char>, i: int)
    requires
        0 <= i < funds.len(),
        funds[i]@.denom == d,
        forall|j: int| 0 <= j < i ==> funds[j]@.denom != d,
    ensures
        find_coin(funds, d) == Some(funds[i]@),
    decreases i,
{
    if i > 0 {
        assert(funds.drop_first()[i - 1] == funds[i]);
        assert(forall|j: int| 0 <= j < i - 1 ==> funds.drop_first()[j] == funds[j + 1]);
        lemma_find_coin_at(funds.drop_first(), d, i - 1);
    }
}

/// `find_coin` finds nothing when no payment matches.
proof fn lemma_find_coin_none(funds: Seq<Coin>, d: Seq<char>)
    requires
        forall|j: int| 0 <= j < funds.len() ==> funds[j]@.denom != d,
    ensures
        find_coin(funds, d) is None,
    decreases funds.len(),
{
    if funds.len() > 0 {
        assert(forall|j: int|
            0 <= j < funds.drop_first().len() ==> funds.drop_first()[j] == funds[j + 1]);
        lemma_find_coin_none(funds.drop_first(), d);
    }
}

/// The first payment attached in the accepted denomination, if any.
fn find_accepted_coin(funds: &Vec<Coin>) -> (r: Option<&Coin>)
    ensures
        match r {
            Some(c) => find_coin(funds@, accepted_denom()) == Some(c@),
            None => find_coin(funds@, accepted_denom()) is None,
        },
{
    let atom = accepted_denom_string();
    let mut i: usize = 0;
    while i < funds.len()
        invariant
            i <= funds@.len(),
            atom@ == accepted_denom(),
            forall|j: int| 0 <= j < i ==> funds@[j]@.denom != accepted_denom(),
        decreases funds@.len() - i,
    {
        if funds[i].denom == atom {
            proof {
                lemma_find_coin_at(funds@, accepted_denom(), i as int);
            }
            return Some(&funds[i]);
        }
        i = i + 1;
    }
    proof {
        lemma_find_coin_none(funds@, accepted_denom());
    }
    None
}

/// Sets up a fresh store: the authority is the one supplied, or the
/// initializing caller; the leading bid is seeded to the caller at zero; no
/// winner, no escrow records.
pub fn instantiate(caller: String, owner: Option<String>) -> (s: Store)
    ensures
        s.owner == (match owner {
            Some(o) => o,
            None => caller,
        }),
        s.highest_bid@ == (StateView { address: caller@, bid: 0, commission: 0 }),
        s.winner is None,
        s.bids@.len() == 0,
        s.inv(),
{
    let owner_addr = match owner {
        Some(o) => o,
        None => caller.clone(),
    };
    Store {
        owner: owner_addr,
        highest_bid: State { address: caller, bid: 0, commission: 0 },
        winner: None,
        bids: Vec::new(),
    }
}

/// The current leading bid: holder and cumulative amount.
pub fn highest_bid(store: &Store) -> (r: HighestBidResp)
    ensures
        r.address@ == store.highest_bid@.address,
        r.bid == store.highest_bid@.bid,
{
    HighestBidResp { address: store.highest_bid.address.clone(), bid: store.highest_bid.bid }
}

/// A given address's cumulative bid: exactly the escrow record the state
/// machine itself would read, zero if there is none.
pub fn address_bid(store: &Store, address: String) -> (r: AddressBidResp)
    requires
        store.inv(),
    ensures
        r.bid == store.recorded_bid(address@),
{
    match find_record(&store.bids, &address) {
        Some(i) => {
            proof {
                lemma_record_at(*store, i as int);
            }
            AddressBidResp { bid: store.bids[i].bid }
        }
        None => AddressBidResp { bid: 0 },
    }
}

/// The cumulative total a bid by `sender` with payments `funds` would reach:
/// the sender's recorded bid plus the attached deposit in the accepted
/// denomination (zero when no such deposit is attached).
pub open spec fn bid_total(store: Store, sender: Seq<char>, funds: Seq<Coin>) -> int {
    match find_coin(funds, accepted_denom()) {
        Some(c) => store.recorded_bid(sender) + c.amount,
        None => 0,
    }
}

/// The response a successful bid carries: its attributes name the action, the
/// sender and the new leading amount; a commission transfer to the authority
/// is emitted exactly when the commission is positive.
pub open spec fn bid_ok_response(
    sender: Seq<char>,
    total: u128,
    owner: Seq<char>,
    comm: u128,
) -> ResponseView {
    ResponseView {
        attributes: seq![
            AttributeView { key: "action"@, value: "bid"@ },
            AttributeView { key: "sender"@, value: sender },
            AttributeView { key: "highest_bid"@, value: dec_of(total as nat) },
        ],
        messages: if comm > 0 {
            seq![TransferView { to_address: owner, amount: comm, denom: accepted_denom() }]
        } else {
            seq![]
        },
    }
}

/// Everything `bid` guarantees, for every input: which error comes on which
/// state and input, if and only if; that a failing call leaves the store
/// untouched; and, on success, the exact new escrow record, leading bid,
/// response and commission transfer, with all other records unchanged.
pub open spec fn bid_post(
    pre: Store,
    post: Store,
    sender: Seq<char>,
    funds: Seq<Coin>,
    r: Result<Response, ContractError>,
) -> bool {
    if sender == pre.owner@ {
        r == Err::<Response, ContractError>(ContractError::OwnerCannotBid {}) && post == pre
    } else if pre.closed() {
        r == Err::<Response, ContractError>(ContractError::BiddingAlreadyClosed {}) && post == pre
    } else {
        match find_coin(funds, accepted_denom()) {
            None => r == Err::<Response, ContractError>(ContractError::IncorrectBid {}) && post
                == pre,
            Some(c) => {
                let total = pre.recorded_bid(sender) + c.amount;
                if total <= pre.highest_bid@.bid {
                    &&& r == Err::<Response, ContractError>(
                        ContractError::InsufficientBid {
                            bid: total as u128,
                            highest_bid: pre.highest_bid@.bid,
                        },
                    )
                    &&& post == pre
                } else {
                    let comm = commission_of(c.amount);
                    let new_rec = StateView {
                        address: sender,
                        bid: total as u128,
                        commission: (pre.recorded_commission(sender) + comm) as u128,
                    };
                    &&& r matches Ok(resp) && resp@ == bid_ok_response(
                        sender,
                        total as u128,
                        pre.owner@,
                        comm as u128,
                    )
                    &&& post.owner == pre.owner
                    &&& post.winner == pre.winner
                    &&& post.highest_bid@ == new_rec
                    &&& post.has_record(sender)
                    &&& post.record_of(sender) == new_rec
                    &&& forall|a: Seq<char>|
                        a != sender ==> post.has_record(a) == pre.has_record(a)
                    &&& forall|a: Seq<char>|
                        a != sender && pre.has_record(a) ==> post.record_of(a) == pre.record_of(a)
                    &&& post.inv()
                }
            }
        }
    }
}

/// A bid: rejected if the caller is the authority, if bidding has closed, if
/// no deposit in the accepted denomination is attached, or if the cumulative
/// total does not strictly exceed the current leading bid; otherwise the
/// caller's escrow record and the leading bid both become the new cumulative
/// total, and the commission on the deposit goes to the authority at once.
/// The leading amount never decreases.
pub fn bid(store: &mut Store, sender: String, funds: Vec<Coin>) -> (r: Result<
    Response,
    ContractError,
>)
    requires
        old(store).inv(),
        bid_total(*old(store), sender@, funds@) <= u128::MAX,
    ensures
        bid_post(*old(store), *final(store), sender@, funds@, r),
        final(store).highest_bid@.bid >= old(store).highest_bid@.bid,
        final(store).inv(),
{
    let ghost pre = *old(store);
    if sender == store.owner {
        return Err(ContractError::OwnerCannotBid {});
    }
    if store.winner.is_some() {
        return Err(ContractError::BiddingAlreadyClosed {});
    }
    let coin = find_accepted_coin(&funds);
    let deposit: u128 = match coin {
        None => {
            return Err(ContractError::IncorrectBid {});
        }
        Some(c) => c.amount,
    };
    let prior = find_record(&store.bids, &sender);
    let (prior_bid, prior_comm): (u128, u128) = match prior {
        Some(i) => {
            proof {
                lemma_record_at(*store, i as int);
            }
            (store.bids[i].bid, store.bids[i].commission)
        }
        None => (0, 0),
    };
    proof {
        assert(prior_bid == pre.recorded_bid(sender@));
        assert(prior_comm == pre.recorded_commission(sender@));
        if pre.has_record(sender@) {
            crate::state::lemma_record_bounds(pre, sender@);
        }
    }
    let total: u128 = prior_bid + deposit;
    if total <= store.highest_bid.bid {
        return Err(
            ContractError::InsufficientBid { bid: total, highest_bid: store.highest_bid.bid },
        );
    }
    let commission: u128 = compute_commission(deposit);
    let total_comm: u128 = prior_comm + commission;
    let rec = State { address: sender.clone(), bid: total, commission: total_comm };
    let ghost new_rec = rec@;
    let ghost idx: int = match prior {
        Some(i) => i as int,
        None => pre.bids@.len() as int,
    };
    match prior {
        Some(i) => {
            store.bids.set(i, rec);
        }
        None => {
            store.bids.push(rec);
        }
    }
    store.highest_bid = State { address: sender.clone(), bid: total, commission: total_comm };
    proof {
        // No record other than the one being written carries the sender's
        // address, before or after the write.
        assert(forall|k: int|
            0 <= k < pre.bids@.len() && k != idx ==> pre.bids@[k]@.address != sender@);
        assert(forall|k: int|
            0 <= k < store.bids@.len() ==> store.bids@[k]@ == (if k == idx {
                new_rec
            } else {
                pre.bids@[k]@
            }));
        assert(store.addrs_unique());
        assert(0 <= idx < store.bids@.len() && store.bids@[idx]@.address == sender@);
        assert(store.has_record(sender@));
        lemma_record_at(*store, idx);
        assert forall|a: Seq<char>|
            a != sender@ && pre.has_record(a) implies store.has_record(a) && store.record_of(a)
            == pre.record_of(a) by {
            let k = choose|k: int|
                0 <= k < pre.bids@.len() && pre.bids@[k]@.address == a;
            assert(store.bids@[k]@ == pre.bids@[k]@);
            lemma_record_at(pre, k);
            lemma_record_at(*store, k);
        }
        assert forall|a: Seq<char>| a != sender@ && !pre.has_record(a) implies !store.has_record(
            a,
        ) by {
            if store.has_record(a) {
                let k = choose|k: int|
                    0 <= k < store.bids@.len() && store.bids@[k]@.address == a;
                assert(pre.bids@[k]@.address == a);
            }
        }
        assert(store.inv());
    }
    let mut attributes: Vec<Attribute> = Vec::new();
    attributes.push(Attribute { key: "action".to_owned(), value: "bid".to_owned() });
    attributes.push(Attribute { key: "sender".to_owned(), value: sender });
    attributes.push(Attribute { key: "highest_bid".to_owned(), value: u128_to_decimal(total) });
    let mut messages: Vec<Transfer> = Vec::new();
    if commission > 0 {
        messages.push(
            Transfer {
                to_address: store.owner.clone(),
                amount: commission,
                denom: accepted_denom_string(),
            },
        );
    }
    let resp = Response { attributes, messages };
    proof {
        let expected = bid_ok_response(sender@, total, pre.owner@, commission);
        assert(resp@.attributes =~= expected.attributes);
        assert(resp@.messages =~= expected.messages);
        assert(resp@ == expected);
    }
    Ok(resp)
}

/// The response a successful close carries: its attributes name the action
/// and the sender; the winner's net escrow goes to the authority exactly when
/// it is positive.
pub open spec fn close_ok_response(sender: Seq<char>, owner: Seq<char>, payout: int) -> ResponseView {
    ResponseView {
        attributes: seq![
            AttributeView { key: "action"@, value: "close"@ },
            AttributeView { key: "sender"@, value: sender },
        ],
        messages: if payout > 0 {
            seq![
                TransferView {
                    to_address: owner,
                    amount: payout as u128,
                    denom: accepted_denom(),
                },
            ]
        } else {
            seq![]
        },
    }
}

/// Everything `close` guarantees: only the authority may close, and only
/// once; a failing call leaves the store untouched; a successful one freezes
/// the leading bid as the winner and pays the authority the leading amount
/// minus the commission already collected on it.
pub open spec fn close_post(
    pre: Store,
    post: Store,
    sender: String,
    r: Result<Response, ContractError>,
) -> bool {
    if sender@ != pre.owner@ {
        r == Err::<Response, ContractError>(ContractError::Unauthorized { owner: pre.owner })
            && post == pre
    } else if pre.closed() {
        r == Err::<Response, ContractError>(ContractError::BiddingAlreadyClosed {}) && post == pre
    } else {
        let payout = pre.highest_bid@.bid - pre.highest_bid@.commission;
        &&& r matches Ok(resp) && resp@ == close_ok_response(sender@, pre.owner@, payout)
        &&& post.owner == pre.owner
        &&& post.bids == pre.bids
        &&& post.highest_bid == pre.highest_bid
        &&& post.winner matches Some(w) && w@ == pre.highest_bid@
        &&& post.inv()
    }
}

/// Closing: only the authority, only while bidding is open. The leading bid
/// is snapshotted as the winner — the one and only transition to the closed
/// state — and the authority is paid the leading amount minus the commission
/// already taken on the winner's deposits.
pub fn close(store: &mut Store, sender: String) -> (r: Result<Response, ContractError>)
    requires
        old(store).inv(),
    ensures
        close_post(*old(store), *final(store), sender, r),
        final(store).highest_bid == old(store).highest_bid,
        final(store).inv(),
{
    let ghost pre = *old(store);
    if !(sender == store.owner) {
        return Err(ContractError::Unauthorized { owner: store.owner.clone() });
    }
    if store.winner.is_some() {
        return Err(ContractError::BiddingAlreadyClosed {});
    }
    let payout: u128 = store.highest_bid.bid - store.highest_bid.commission;
    store.winner = Some(store.highest_bid.duplicate());
    proof {
        if pre.highest_bid@.bid > 0 {
            let k = choose|k: int|
                0 <= k < pre.bids@.len() && pre.bids@[k]@.address == pre.highest_bid@.address;
            lemma_record_at(pre, k);
            lemma_record_at(*store, k);
        }
        assert(store.inv());
    }
    let mut attributes: Vec<Attribute> = Vec::new();
    attributes.push(Attribute { key: "action".to_owned(), value: "close".to_owned() });
    attributes.push(Attribute { key: "sender".to_owned(), value: sender });
    let mut messages: Vec<Transfer> = Vec::new();
    if payout > 0 {
        messages.push(
            Transfer {
                to_address: store.owner.clone(),
                amount: payout,
                denom: accepted_denom_string(),
            },
        );
    }
    let resp = Response { attributes, messages };
    proof {
        let expected = close_ok_response(sender@, pre.owner@, payout as int);
        assert(resp@.attributes =~= expected.attributes);
        assert(resp@.messages =~= expected.messages);
        assert(resp@ == expected);
    }
    Ok(resp)
}

/// The response a successful retract carries: its attributes name the action
/// and the sender; the net escrow goes to the chosen receiver.
pub open spec fn retract_ok_response(sender: Seq<char>, dest: Seq<char>, refund: u128) -> ResponseView {
    ResponseView {
        attributes: seq![
            AttributeView { key: "action"@, value: "retract"@ },
            AttributeView { key: "sender"@, value: sender },
        ],
        messages: seq![TransferView { to_address: dest, amount: refund, denom: accepted_denom() }],
    }
}

/// Everything `retract` guarantees: it works only after close, never for the
/// recorded winner, and only for an address that still holds an escrow
/// record; a failing call leaves the store untouched. A successful one pays
/// the caller's net escrow — cumulative bid minus the commission already
/// taken — to the chosen receiver, and removes the caller's escrow record,
/// so that a second retract finds none.
pub open spec fn retract_post(
    pre: Store,
    post: Store,
    sender: String,
    receiver: Option<String>,
    r: Result<Response, ContractError>,
) -> bool {
    match pre.winner {
        None => r == Err::<Response, ContractError>(ContractError::BiddingNotClosed {}) && post
            == pre,
        Some(w) => {
            if w@.address == sender@ {
                r == Err::<Response, ContractError>(ContractError::WinnerCannotRetract {}) && post
                    == pre
            } else if !pre.has_record(sender@) {
                r == Err::<Response, ContractError>(ContractError::NoBidFound { address: sender })
                    && post == pre
            } else {
                let rec = pre.record_of(sender@);
                let refund = rec.bid - rec.commission;
                let dest = match receiver {
                    Some(rcv) => rcv@,
                    None => sender@,
                };
                &&& r matches Ok(resp) && resp@ == retract_ok_response(
                    sender@,
                    dest,
                    refund as u128,
                )
                &&& post.owner == pre.owner
                &&& post.highest_bid == pre.highest_bid
                &&& post.winner == pre.winner
                &&& !post.has_record(sender@)
                &&& forall|a: Seq<char>|
                    a != sender@ ==> post.has_record(a) == pre.has_record(a)
                &&& forall|a: Seq<char>|
                    a != sender@ && pre.has_record(a) ==> post.record_of(a) == pre.record_of(a)
                &&& post.inv()
            }
        }
    }
}

/// A post-close withdrawal: the caller's net escrow — cumulative bid minus
/// the commission already taken on it — is paid to the receiver if one is
/// supplied, else back to the caller, and the record is removed.
pub fn retract(store: &mut Store, sender: String, receiver: Option<String>) -> (r: Result<
    Response,
    ContractError,
>)
    requires
        old(store).inv(),
    ensures
        retract_post(*old(store), *final(store), sender, receiver, r),
        final(store).highest_bid == old(store).highest_bid,
        final(store).winner == old(store).winner,
        final(store).inv(),
{
    let ghost pre = *old(store);
    let winner_is_caller: bool = match &store.winner {
        None => {
            return Err(ContractError::BiddingNotClosed {});
        }
        Some(w) => w.address == sender,
    };
    if winner_is_caller {
        return Err(ContractError::WinnerCannotRetract {});
    }
    let i: usize = match find_record(&store.bids, &sender) {
        None => {
            return Err(ContractError::NoBidFound { address: sender });
        }
        Some(i) => i,
    };
    proof {
        lemma_record_at(*store, i as int);
    }
    let refund: u128 = store.bids[i].bid - store.bids[i].commission;
    let ghost receiver_v: Option<String> = receiver;
    let dest: String = match receiver {
        Some(rcv) => rcv,
        None => sender.clone(),
    };
    store.bids.remove(i);
    proof {
        let idx = i as int;
        let n = pre.bids@.len() as int;
        pre.bids@.remove_ensures(idx);
        assert(forall|k: int| 0 <= k < idx ==> store.bids@[k]@ == pre.bids@[k]@);
        assert(forall|k: int| idx <= k < n - 1 ==> store.bids@[k]@ == pre.bids@[k + 1]@);
        // Every surviving record keeps an address other than the sender's.
        assert(forall|k: int|
            0 <= k < pre.bids@.len() && k != idx ==> pre.bids@[k]@.address != sender@);
        assert(forall|k: int| 0 <= k < n - 1 ==> store.bids@[k]@.address != sender@);
        assert(store.addrs_unique());
        assert(!store.has_record(sender@));
        assert forall|a: Seq<char>|
            a != sender@ && pre.has_record(a) implies store.has_record(a) && store.record_of(a)
            == pre.record_of(a) by {
            let j = choose|j: int| 0 <= j < pre.bids@.len() && pre.bids@[j]@.address == a;
            lemma_record_at(pre, j);
            if j < idx {
                assert(store.bids@[j]@ == pre.bids@[j]@);
                lemma_record_at(*store, j);
            } else {
                assert(store.bids@[j - 1]@ == pre.bids@[j]@);
                lemma_record_at(*store, j - 1);
            }
        }
        assert forall|a: Seq<char>| a != sender@ && !pre.has_record(a) implies !store.has_record(
            a,
        ) by {
            if store.has_record(a) {
                let k = choose|k: int|
                    0 <= k < store.bids@.len() && store.bids@[k]@.address == a;
                if k < idx {
                    assert(pre.bids@[k]@.address == a);
                } else {
                    assert(pre.bids@[k + 1]@.address == a);
                }
            }
        }
        // The leading record survives: it belongs to the winner, who is not
        // the caller.
        if pre.highest_bid@.bid > 0 {
            assert(pre.highest_bid@.address != sender@);
        }
        assert(store.inv());
    }
    let mut attributes: Vec<Attribute> = Vec::new();
    attributes.push(Attribute { key: "action".to_owned(), value: "retract".to_owned() });
    attributes.push(Attribute { key: "sender".to_owned(), value: sender });
    let mut messages: Vec<Transfer> = Vec::new();
    messages.push(Transfer { to_address: dest, amount: refund, denom: accepted_denom_string() });
    let resp = Response { attributes, messages };
    proof {
        let dest_v = match receiver_v {
            Some(rcv) => rcv@,
            None => sender@,
        };
        let expected = retract_ok_response(sender@, dest_v, refund);
        assert(resp@.attributes =~= expected.attributes);
        assert(resp@.messages =~= expected.messages);
        assert(resp@ == expected);
    }
    Ok(resp)
}

/// The winner once bidding has closed; an empty address and a zero amount
/// while it is still open.
pub fn winner(store: &Store) -> (r: WinnerResp)
    ensures
        match store.winner {
            Some(w) => r.address@ == w@.address && r.bid == w@.bid,
            None => r.address@ == Seq::<char>::empty() && r.bid == 0,
        },
{
    match &store.winner {
        Some(w) => WinnerResp { address: w.address.clone(), bid: w.bid },
        None => WinnerResp { address: String::new(), bid: 0 },
    }
}

} // verus!
