use vstd::prelude::*;

verus! {

/// A payment attached to a call: an amount of some denomination.
#[derive(Debug, PartialEq)]
pub struct Coin {
    pub denom: String,
    pub amount: u128,
}

/// Mathematical model of a `Coin`.
#[verifier::ext_equal]
pub ghost struct CoinView {
    pub denom: Seq<char>,
    pub amount: u128,
}

impl View for Coin {
    type V = CoinView;

    open spec fn view(&self) -> CoinView {
        CoinView { denom: self.denom@, amount: self.amount }
    }
}

impl Coin {
    pub fn new(amount: u128, denom: &str) -> (c: Coin)
        ensures
            c@ == (CoinView { denom: denom@, amount }),
    {
        Coin { denom: denom.to_owned(), amount }
    }
}

/// A value movement the core requests; the host ledger executes it.
#[derive(Debug, PartialEq)]
pub struct Transfer {
    pub to_address: String,
    pub amount: u128,
    pub denom: String,
}

/// Mathematical model of a `Transfer`.
#[verifier::ext_equal]
pub ghost struct TransferView {
    pub to_address: Seq<char>,
    pub amount: u128,
    pub denom: Seq<char>,
}

impl View for Transfer {
    type V = TransferView;

    open spec fn view(&self) -> TransferView {
        TransferView { to_address: self.to_address@, amount: self.amount, denom: self.denom@ }
    }
}

/// A descriptive key-value pair carried by a successful operation.
#[derive(Debug, PartialEq)]
pub struct Attribute {
    pub key: String,
    pub value: String,
}

/// Mathematical model of an `Attribute`.
#[verifier::ext_equal]
pub ghost struct AttributeView {
    pub key: Seq<char>,
    pub value: Seq<char>,
}

impl View for Attribute {
    type V = AttributeView;

    open spec fn view(&self) -> AttributeView {
        AttributeView { key: self.key@, value: self.value@ }
    }
}

/// The result of a successful mutating operation: descriptive attributes and
/// the transfer instructions the host must execute.
#[derive(Debug, PartialEq)]
pub struct Response {
    pub attributes: Vec<Attribute>,
    pub messages: Vec<Transfer>,
}

/// Mathematical model of a `Response`.
#[verifier::ext_equal]
pub ghost struct ResponseView {
    pub attributes: Seq<AttributeView>,
    pub messages: Seq<TransferView>,
}

impl View for Response {
    type V = ResponseView;

    open spec fn view(&self) -> ResponseView {
        ResponseView {
            attributes: self.attributes@.map_values(|a: Attribute| a@),
            messages: self.messages@.map_values(|t: Transfer| t@),
        }
    }
}

/// Initialization parameters: the authority, defaulting to the initializer.
#[derive(Debug)]
pub struct InstantiateMsg {
    pub owner: Option<String>,
}

/// The read-only operations.
#[derive(Debug)]
pub enum QueryMsg {
    HighestBid {},
    AddressBid { address: String },
    Winner {},
}

/// The mutating operations.
#[derive(Debug)]
pub enum ExecMsg {
    Bid {},
    Close {},
    Retract { receiver: Option<String> },
}

/// The current leading bid and its holder.
#[derive(Debug, PartialEq)]
pub struct HighestBidResp {
    pub address: String,
    pub bid: u128,
}

/// A given address's cumulative bid, zero if it never bid.
#[derive(Debug, PartialEq)]
pub struct AddressBidResp {
    pub bid: u128,
}

/// The winner once bidding closed; empty address and zero amount before.
#[derive(Debug, PartialEq)]
pub struct WinnerResp {
    pub address: String,
    pub bid: u128,
}

/// The answer to a query, one variant per query kind.
#[derive(Debug, PartialEq)]
pub enum QueryResp {
    HighestBid(HighestBidResp),
    AddressBid(AddressBidResp),
    Winner(WinnerResp),
}

} // verus!
