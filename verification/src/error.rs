use vstd::prelude::*;

verus! {

/// Everything that can make an operation fail. Every check happens before any
/// mutation, so a failing call leaves the store untouched.
#[derive(Debug, PartialEq)]
pub enum ContractError {
    /// Only the authority may close; carries the required identity.
    Unauthorized { owner: String },
    /// The authority itself tried to bid.
    OwnerCannotBid {},
    /// The cumulative total would not strictly exceed the current leading
    /// bid; carries the offered total and the leading amount.
    InsufficientBid { bid: u128, highest_bid: u128 },
    /// No deposit in the accepted denomination was attached.
    IncorrectBid {},
    /// A bid or a close arrived after bidding closed.
    BiddingAlreadyClosed {},
    /// A retract arrived while bidding was still open.
    BiddingNotClosed {},
    /// A retract by an address that holds no escrow record.
    NoBidFound { address: String },
    /// A retract by the recorded winner, who was settled at close.
    WinnerCannotRetract {},
}

} // verus!
