use vstd::prelude::*;

verus! {

/// One escrow record: a participant's address, the cumulative amount it has
/// deposited, and the cumulative commission already charged on those deposits.
/// The same shape also serves for the leading-bid record and the winner
/// snapshot.
#[derive(Debug, PartialEq)]
pub struct State {
    pub address: String,
    pub bid: u128,
    pub commission: u128,
}

/// Mathematical model of a `State` record: the address as a character
/// sequence, amounts unchanged.
#[verifier::ext_equal]
pub ghost struct StateView {
    pub address: Seq<char>,
    pub bid: u128,
    pub commission: u128,
}

impl View for State {
    type V = StateView;

    open spec fn view(&self) -> StateView {
        StateView { address: self.address@, bid: self.bid, commission: self.commission }
    }
}

impl State {
    /// Copy of a record; `String` cloning keeps the value.
    pub fn duplicate(&self) -> (r: State)
        ensures
            r@ == self@,
    {
        State { address: self.address.clone(), bid: self.bid, commission: self.commission }
    }
}

/// The ledger store: the authority identity, the current leading bid, the
/// winner snapshot (present exactly when bidding is closed), and one escrow
/// record per participant that has ever had a bid accepted.
pub struct Store {
    pub owner: String,
    pub highest_bid: State,
    pub winner: Option<State>,
    pub bids: Vec<State>,
}

impl Store {
    /// Bidding is closed exactly when the winner snapshot exists.
    pub open spec fn closed(self) -> bool {
        self.winner is Some
    }

    /// Some escrow record carries this address.
    pub open spec fn has_record(self, a: Seq<char>) -> bool {
        exists|i: int| 0 <= i < self.bids@.len() && self.bids@[i]@.address == a
    }

    /// The escrow record carrying this address (meaningful when
    /// `has_record(a)`; addresses are unique under `inv`).
    pub open spec fn record_of(self, a: Seq<char>) -> StateView {
        self.bids@[choose|i: int|
            0 <= i < self.bids@.len() && self.bids@[i]@.address == a]@
    }

    /// A participant's cumulative deposit, zero if it never bid.
    pub open spec fn recorded_bid(self, a: Seq<char>) -> u128 {
        if self.has_record(a) {
            self.record_of(a).bid
        } else {
            0
        }
    }

    /// A participant's cumulative commission, zero if it never bid.
    pub open spec fn recorded_commission(self, a: Seq<char>) -> u128 {
        if self.has_record(a) {
            self.record_of(a).commission
        } else {
            0
        }
    }

    /// No two escrow records share an address.
    pub open spec fn addrs_unique(self) -> bool {
        forall|i: int, j: int|
            0 <= i < self.bids@.len() && 0 <= j < self.bids@.len() && i != j
                ==> self.bids@[i]@.address != self.bids@[j]@.address
    }

    /// Well-formedness of the store, maintained by every transition:
    /// unique escrow addresses; the authority never appears as a bidder;
    /// commission never exceeds the deposit it was charged on; the leading
    /// bid dominates every escrow record and, once positive, is itself one
    /// of them; the winner snapshot, once taken, equals the leading bid.
    pub open spec fn inv(self) -> bool {
        &&& self.addrs_unique()
        &&& forall|i: int|
            0 <= i < self.bids@.len() ==> self.bids@[i]@.address != self.owner@
        &&& forall|i: int|
            0 <= i < self.bids@.len() ==> self.bids@[i]@.commission <= self.bids@[i]@.bid
        &&& self.highest_bid@.commission <= self.highest_bid@.bid
        &&& forall|i: int|
            0 <= i < self.bids@.len() ==> self.bids@[i]@.bid <= self.highest_bid@.bid
        &&& self.highest_bid@.bid > 0 ==> {
            &&& self.has_record(self.highest_bid@.address)
            &&& self.record_of(self.highest_bid@.address) == self.highest_bid@
        }
        &&& self.winner matches Some(w) ==> w@ == self.highest_bid@
    }
}

/// The record at a valid index is the record `record_of` selects for its
/// address, provided addresses are unique.
pub proof fn lemma_record_at(s: Store, i: int)
    requires
        s.addrs_unique(),
        0 <= i < s.bids@.len(),
    ensures
        s.has_record(s.bids@[i]@.address),
        s.record_of(s.bids@[i]@.address) == s.bids@[i]@,
{
    let a = s.bids@[i]@.address;
    assert(s.has_record(a));
    let k = choose|k: int| 0 <= k < s.bids@.len() && s.bids@[k]@.address == a;
    if k != i {
        assert(s.bids@[k]@.address != s.bids@[i]@.address);
    }
}

/// What the store invariant says of any single escrow record: it carries the
/// address it is filed under, which is never the authority's; its commission
/// never exceeds its cumulative bid; and the leading bid dominates it.
pub proof fn lemma_record_bounds(s: Store, a: Seq<char>)
    requires
        s.inv(),
        s.has_record(a),
    ensures
        s.record_of(a).address == a,
        s.record_of(a).commission <= s.record_of(a).bid,
        s.record_of(a).bid <= s.highest_bid@.bid,
        a != s.owner@,
{
    let k = choose|k: int| 0 <= k < s.bids@.len() && s.bids@[k]@.address == a;
    assert(0 <= k < s.bids@.len() && s.bids@[k]@.address == a);
}

/// Linear search for the escrow record of an address.
pub fn find_record(bids: &Vec<State>, addr: &String) -> (r: Option<usize>)
    ensures
        match r {
            Some(i) => i < bids@.len() && bids@[i as int]@.address == addr@,
            None => forall|i: int| 0 <= i < bids@.len() ==> bids@[i]@.address != addr@,
        },
{
    let mut i: usize = 0;
    while i < bids.len()
        invariant
            i <= bids@.len(),
            forall|j: int| 0 <= j < i ==> bids@[j]@.address != addr@,
        decreases bids@.len() - i,
    {
        if bids[i].address == *addr {
            return Some(i);
        }
        i = i + 1;
    }
    None
}

} // verus!
