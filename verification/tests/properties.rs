use bidding::error::ContractError;
use bidding::msg::{Coin, ExecMsg, InstantiateMsg, QueryMsg, QueryResp};
use bidding::state::Store;
use bidding::{execute, instantiate, query};

fn fresh(owner: &str) -> Store {
    instantiate(owner.to_string(), InstantiateMsg { owner: None })
}

fn coins(amount: u128, denom: &str) -> Vec<Coin> {
    vec![Coin::new(amount, denom)]
}

fn do_bid(store: &mut Store, sender: &str, amount: u128) -> bidding::msg::Response {
    execute(store, sender.to_string(), coins(amount, "atom"), ExecMsg::Bid {}).unwrap()
}

fn highest_amount(store: &Store) -> u128 {
    match query(store, QueryMsg::HighestBid {}) {
        QueryResp::HighestBid(h) => h.bid,
        _ => panic!("wrong response variant"),
    }
}

fn address_amount(store: &Store, address: &str) -> u128 {
    match query(store, QueryMsg::AddressBid { address: address.to_string() }) {
        QueryResp::AddressBid(a) => a.bid,
        _ => panic!("wrong response variant"),
    }
}

#[test]
fn commission_transfer_on_deposit() {
    // A deposit of 10 at a 10% rate pays 1 to the authority at once.
    let mut store = fresh("owner");

    let resp = do_bid(&mut store, "sender", 10);

    assert_eq!(resp.messages.len(), 1);
    assert_eq!(resp.messages[0].to_address, "owner");
    assert_eq!(resp.messages[0].amount, 1);
    assert_eq!(resp.messages[0].denom, "atom");

    // The full deposit, not the net of commission, counts toward the bid.
    assert_eq!(address_amount(&store, "sender"), 10);
}

#[test]
fn close_payout_deducts_commission() {
    // At close the authority receives the leading total minus the commission
    // already collected on the leader's deposits, not the raw total.
    let mut store = fresh("owner");

    do_bid(&mut store, "sender", 10);
    let resp = execute(&mut store, "owner".to_string(), vec![], ExecMsg::Close {}).unwrap();

    assert_eq!(resp.messages.len(), 1);
    assert_eq!(resp.messages[0].to_address, "owner");
    assert_eq!(resp.messages[0].amount, 9);
}

#[test]
fn commission_rounds_down() {
    let mut store = fresh("owner");

    // floor(25 * 10%) = 2
    let resp = do_bid(&mut store, "sender", 25);
    assert_eq!(resp.messages.len(), 1);
    assert_eq!(resp.messages[0].amount, 2);

    // floor(9 * 10%) = 0: no transfer at all.
    let mut store = fresh("owner");
    let resp = do_bid(&mut store, "sender", 9);
    assert_eq!(resp.messages.len(), 0);
}

#[test]
fn commission_accumulates_per_deposit() {
    // Two deposits of 15 each pay 1 apiece; close deducts both.
    let mut store = fresh("owner");

    let resp = do_bid(&mut store, "sender", 15);
    assert_eq!(resp.messages[0].amount, 1);
    let resp = do_bid(&mut store, "sender", 15);
    assert_eq!(resp.messages[0].amount, 1);

    let resp = execute(&mut store, "owner".to_string(), vec![], ExecMsg::Close {}).unwrap();
    assert_eq!(resp.messages[0].amount, 28);
}

#[test]
fn bid_attributes_report_new_leading_total() {
    let mut store = fresh("owner");

    do_bid(&mut store, "rival", 1000);
    let resp = do_bid(&mut store, "sender", 1234);

    assert_eq!(resp.attributes.len(), 3);
    assert_eq!(resp.attributes[0].key, "action");
    assert_eq!(resp.attributes[0].value, "bid");
    assert_eq!(resp.attributes[1].key, "sender");
    assert_eq!(resp.attributes[1].value, "sender");
    assert_eq!(resp.attributes[2].key, "highest_bid");
    assert_eq!(resp.attributes[2].value, "1234");
}

#[test]
fn equal_bid_is_rejected() {
    // Ties lose: a total exactly equal to the leading amount is refused.
    let mut store = fresh("owner");

    do_bid(&mut store, "sender1", 42);
    let err = execute(&mut store, "sender2".to_string(), coins(42, "atom"), ExecMsg::Bid {})
        .unwrap_err();

    assert_eq!(err, ContractError::InsufficientBid { bid: 42, highest_bid: 42 });
    assert_eq!(highest_amount(&store), 42);
}

#[test]
fn wrong_denomination_rejected() {
    let mut store = fresh("owner");

    let err = execute(&mut store, "sender".to_string(), coins(5, "btc"), ExecMsg::Bid {})
        .unwrap_err();

    assert_eq!(err, ContractError::IncorrectBid {});
}

#[test]
fn first_accepted_coin_counts() {
    // Only the first payment in the accepted denomination counts.
    let mut store = fresh("owner");

    let funds = vec![Coin::new(5, "btc"), Coin::new(3, "atom"), Coin::new(9, "atom")];
    execute(&mut store, "sender".to_string(), funds, ExecMsg::Bid {}).unwrap();

    assert_eq!(address_amount(&store, "sender"), 3);
}

#[test]
fn retract_before_close_rejected() {
    let mut store = fresh("owner");

    do_bid(&mut store, "sender", 10);
    let err = execute(
        &mut store,
        "sender".to_string(),
        vec![],
        ExecMsg::Retract { receiver: None },
    )
    .unwrap_err();

    assert_eq!(err, ContractError::BiddingNotClosed {});
}

#[test]
fn retract_to_receiver() {
    let mut store = fresh("owner");

    do_bid(&mut store, "loser", 10);
    do_bid(&mut store, "winner", 20);
    execute(&mut store, "owner".to_string(), vec![], ExecMsg::Close {}).unwrap();

    let resp = execute(
        &mut store,
        "loser".to_string(),
        vec![],
        ExecMsg::Retract { receiver: Some("friend".to_string()) },
    )
    .unwrap();

    // The net escrow (10 deposited, 1 commission taken) goes to the friend.
    assert_eq!(resp.messages.len(), 1);
    assert_eq!(resp.messages[0].to_address, "friend");
    assert_eq!(resp.messages[0].amount, 9);
}

#[test]
fn retract_settles_the_record() {
    // A successful retract removes the escrow record: a second attempt finds
    // none, and the read model reports zero.
    let mut store = fresh("owner");

    do_bid(&mut store, "loser", 10);
    do_bid(&mut store, "winner", 20);
    execute(&mut store, "owner".to_string(), vec![], ExecMsg::Close {}).unwrap();

    execute(&mut store, "loser".to_string(), vec![], ExecMsg::Retract { receiver: None }).unwrap();
    let err = execute(&mut store, "loser".to_string(), vec![], ExecMsg::Retract { receiver: None })
        .unwrap_err();

    assert_eq!(err, ContractError::NoBidFound { address: "loser".to_string() });
    assert_eq!(address_amount(&store, "loser"), 0);
}

#[test]
fn custom_owner() {
    let mut store = instantiate(
        "deployer".to_string(),
        InstantiateMsg { owner: Some("admin".to_string()) },
    );

    // The deployer is not the authority and may bid; the admin may not.
    let err = execute(&mut store, "admin".to_string(), coins(5, "atom"), ExecMsg::Bid {})
        .unwrap_err();
    assert_eq!(err, ContractError::OwnerCannotBid {});

    do_bid(&mut store, "deployer", 5);

    let err = execute(&mut store, "deployer".to_string(), vec![], ExecMsg::Close {}).unwrap_err();
    assert_eq!(err, ContractError::Unauthorized { owner: "admin".to_string() });

    execute(&mut store, "admin".to_string(), vec![], ExecMsg::Close {}).unwrap();
}

#[test]
fn close_with_no_bids() {
    // Closing a fresh auction pays nothing and freezes the zero seed.
    let mut store = fresh("owner");

    let resp = execute(&mut store, "owner".to_string(), vec![], ExecMsg::Close {}).unwrap();
    assert_eq!(resp.messages.len(), 0);

    let err = execute(&mut store, "owner".to_string(), vec![], ExecMsg::Close {}).unwrap_err();
    assert_eq!(err, ContractError::BiddingAlreadyClosed {});

    match query(&store, QueryMsg::Winner {}) {
        QueryResp::Winner(w) => {
            assert_eq!(w.address, "owner");
            assert_eq!(w.bid, 0);
        }
        _ => panic!("wrong response variant"),
    }
}

#[test]
fn leading_bid_never_decreases() {
    let mut store = fresh("owner");

    let mut last: u128 = highest_amount(&store);
    let steps: Vec<(&str, u128)> = vec![
        ("a", 5),
        ("b", 6),
        ("a", 1),
        ("a", 2),
        ("c", 3),
        ("b", 10),
    ];
    for (sender, amount) in steps {
        let _ = execute(
            &mut store,
            sender.to_string(),
            coins(amount, "atom"),
            ExecMsg::Bid {},
        );
        let now = highest_amount(&store);
        assert!(now >= last);
        last = now;
    }
}

#[test]
fn read_model_matches_write_model() {
    // The AddressBid projection tracks exactly the escrow totals the state
    // machine accumulates, accepted and rejected bids alike.
    let mut store = fresh("owner");

    do_bid(&mut store, "a", 5);
    do_bid(&mut store, "b", 6);
    // rejected: ties lose
    let _ = execute(&mut store, "c".to_string(), coins(6, "atom"), ExecMsg::Bid {});
    do_bid(&mut store, "a", 2);

    assert_eq!(address_amount(&store, "a"), 7);
    assert_eq!(address_amount(&store, "b"), 6);
    assert_eq!(address_amount(&store, "c"), 0);
    assert_eq!(address_amount(&store, "owner"), 0);
    assert_eq!(highest_amount(&store), 7);
}

#[test]
fn large_amounts_no_overflow() {
    let mut store = fresh("owner");

    let big: u128 = 300_000_000_000_000_000_000_000_000_000;
    let resp = do_bid(&mut store, "whale", big);

    assert_eq!(resp.messages.len(), 1);
    assert_eq!(resp.messages[0].amount, big / 10);
    assert_eq!(address_amount(&store, "whale"), big);
}
