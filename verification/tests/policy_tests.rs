use julian::auth::{
    can_arbitrate, can_cancel_purchase, can_edit_or_delete, can_purchase, can_request_arbitration,
    can_sign_received, can_sign_shipped, is_arbiter, is_buyer, is_seller,
};
use julian::coin_helpers::{pays_exactly, Coin};
use julian::state::Listing;

fn listing(bought: bool, buyer: Option<&str>, shipped: bool, arbitration: bool) -> Listing {
    Listing {
        listing_id: 1,
        listing_title: "Vintage Camera".to_string(),
        external_id: "ref".to_string(),
        price: 100,
        text: "text".to_string(),
        tags: vec![],
        seller: "seller".to_string(),
        contact: "contact".to_string(),
        bought,
        buyer: buyer.map(|b| b.to_string()),
        shipped,
        received: false,
        arbitration_requested: arbitration,
        creation_date: "0".to_string(),
        last_edit_date: None,
    }
}

fn arbiters() -> Vec<String> {
    vec!["arb1".to_string(), "arb2".to_string()]
}

#[test]
fn roles_are_exact() {
    let l = listing(true, Some("buyer"), false, false);
    assert!(is_seller(&l, &"seller".to_string()));
    assert!(!is_seller(&l, &"buyer".to_string()));
    assert!(is_buyer(&l, &"buyer".to_string()));
    assert!(!is_buyer(&l, &"seller".to_string()));

    let open = listing(false, None, false, false);
    assert!(!is_buyer(&open, &"buyer".to_string()));

    assert!(is_arbiter(&arbiters(), &"arb2".to_string()));
    assert!(!is_arbiter(&arbiters(), &"seller".to_string()));
    assert!(!is_arbiter(&vec![], &"arb1".to_string()));
}

#[test]
fn edit_or_delete_is_for_the_seller_before_purchase() {
    let open = listing(false, None, false, false);
    assert!(can_edit_or_delete(&open, &"seller".to_string()));
    assert!(!can_edit_or_delete(&open, &"stranger".to_string()));

    let sold = listing(true, Some("buyer"), false, false);
    assert!(!can_edit_or_delete(&sold, &"seller".to_string()));
}

#[test]
fn sign_shipped_is_for_seller_or_arbiter() {
    let l = listing(true, Some("buyer"), false, false);
    assert!(can_sign_shipped(&l, &"seller".to_string(), &arbiters()));
    assert!(can_sign_shipped(&l, &"arb1".to_string(), &arbiters()));
    assert!(!can_sign_shipped(&l, &"buyer".to_string(), &arbiters()));
}

#[test]
fn sign_received_is_for_the_buyer_after_shipment() {
    let shipped = listing(true, Some("buyer"), true, false);
    assert!(can_sign_received(&shipped, &"buyer".to_string()));
    assert!(!can_sign_received(&shipped, &"seller".to_string()));

    let unshipped = listing(true, Some("buyer"), false, false);
    assert!(!can_sign_received(&unshipped, &"buyer".to_string()));
}

#[test]
fn purchase_only_while_unsold() {
    assert!(can_purchase(&listing(false, None, false, false)));
    assert!(!can_purchase(&listing(true, Some("buyer"), false, false)));
}

#[test]
fn cancel_is_for_the_buyer_before_shipment() {
    let sold = listing(true, Some("buyer"), false, false);
    assert!(can_cancel_purchase(&sold, &"buyer".to_string()));
    assert!(!can_cancel_purchase(&sold, &"seller".to_string()));

    let shipped = listing(true, Some("buyer"), true, false);
    assert!(!can_cancel_purchase(&shipped, &"buyer".to_string()));

    let open = listing(false, None, false, false);
    assert!(!can_cancel_purchase(&open, &"buyer".to_string()));
}

#[test]
fn arbitration_request_is_for_the_parties_after_shipment() {
    let shipped = listing(true, Some("buyer"), true, false);
    assert!(can_request_arbitration(&shipped, &"seller".to_string()));
    assert!(can_request_arbitration(&shipped, &"buyer".to_string()));
    assert!(!can_request_arbitration(&shipped, &"arb1".to_string()));

    let unshipped = listing(true, Some("buyer"), false, false);
    assert!(!can_request_arbitration(&unshipped, &"buyer".to_string()));
}

#[test]
fn arbitrate_is_for_arbiters_on_requested_disputes() {
    let disputed = listing(true, Some("buyer"), true, true);
    assert!(can_arbitrate(&disputed, &"arb1".to_string(), &arbiters()));
    assert!(!can_arbitrate(&disputed, &"seller".to_string(), &arbiters()));

    let undisputed = listing(true, Some("buyer"), true, false);
    assert!(!can_arbitrate(&undisputed, &"arb1".to_string(), &arbiters()));
}

#[test]
fn exact_payment_sums_the_settlement_currency() {
    let denom = "ujuno".to_string();
    let c = |amount: u128, d: &str| Coin { denom: d.to_string(), amount };

    assert!(pays_exactly(&vec![c(100, "ujuno")], &denom, 100));
    assert!(pays_exactly(&vec![c(60, "ujuno"), c(40, "ujuno")], &denom, 100));
    assert!(pays_exactly(&vec![c(100, "ujuno"), c(5, "uatom")], &denom, 100));
    assert!(!pays_exactly(&vec![c(99, "ujuno")], &denom, 100));
    assert!(!pays_exactly(&vec![c(100, "uatom")], &denom, 100));
    assert!(!pays_exactly(&vec![], &denom, 100));
    assert!(pays_exactly(&vec![], &denom, 0));
    // A ludicrous overpayment is still just a mismatch.
    assert!(!pays_exactly(&vec![c(u128::MAX, "ujuno"), c(u128::MAX, "ujuno")], &denom, 100));
}
