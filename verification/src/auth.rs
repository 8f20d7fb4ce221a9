//! The authorization policy: pure predicates answering whether a principal
//! may perform an action on a listing in its current state.
//!
//! These functions never raise errors; the lifecycle converts a refusal
//! into `Unauthorized` or a state-specific error.

use crate::state::{Listing, ListingView};
use vstd::prelude::*;

verus! {

/// The caller is the listing's seller.
pub open spec fn spec_is_seller(l: ListingView, caller: Seq<char>) -> bool {
    l.seller == caller
}

/// The caller is the recorded buyer.
pub open spec fn spec_is_buyer(l: ListingView, caller: Seq<char>) -> bool {
    match l.buyer {
        Some(b) => b == caller,
        None => false,
    }
}

/// The caller belongs to the configured arbiter set.
pub open spec fn spec_is_arbiter(arbiters: Seq<Seq<char>>, caller: Seq<char>) -> bool {
    exists|i: int| 0 <= i < arbiters.len() && arbiters[i] == caller
}

/// Edit and withdrawal are for the seller, and only before a purchase.
pub open spec fn spec_can_edit_or_delete(l: ListingView, caller: Seq<char>) -> bool {
    spec_is_seller(l, caller) && !l.bought
}

/// Shipment is signed by the seller or by an arbiter.
pub open spec fn spec_can_sign_shipped(
    l: ListingView,
    caller: Seq<char>,
    arbiters: Seq<Seq<char>>,
) -> bool {
    spec_is_seller(l, caller) || spec_is_arbiter(arbiters, caller)
}

/// Receipt is signed by the buyer, once the item shipped.
pub open spec fn spec_can_sign_received(l: ListingView, caller: Seq<char>) -> bool {
    spec_is_buyer(l, caller) && l.shipped
}

/// Anyone may purchase an unpurchased listing; the payment is checked
/// separately.
pub open spec fn spec_can_purchase(l: ListingView) -> bool {
    !l.bought
}

/// The buyer may cancel a purchase that has not shipped yet.
pub open spec fn spec_can_cancel_purchase(l: ListingView, caller: Seq<char>) -> bool {
    l.bought && !l.shipped && spec_is_buyer(l, caller)
}

/// Either party of a shipped purchase may request arbitration.
pub open spec fn spec_can_request_arbitration(l: ListingView, caller: Seq<char>) -> bool {
    l.shipped && l.bought && (spec_is_seller(l, caller) || spec_is_buyer(l, caller))
}

/// An arbiter may settle a dispute once arbitration was requested.
pub open spec fn spec_can_arbitrate(
    l: ListingView,
    caller: Seq<char>,
    arbiters: Seq<Seq<char>>,
) -> bool {
    spec_is_arbiter(arbiters, caller) && l.arbitration_requested
}

/// Whether `caller` is the listing's seller.
pub fn is_seller(l: &Listing, caller: &String) -> (r: bool)
    ensures
        r == spec_is_seller(l@, caller@),
{
    l.seller == *caller
}

/// Whether `caller` is the listing's recorded buyer.
pub fn is_buyer(l: &Listing, caller: &String) -> (r: bool)
    ensures
        r == spec_is_buyer(l@, caller@),
{
    match &l.buyer {
        Some(b) => *b == *caller,
        None => false,
    }
}

/// Whether `caller` is one of the configured arbiters.
pub fn is_arbiter(arbiters: &Vec<String>, caller: &String) -> (r: bool)
    ensures
        r == spec_is_arbiter(arbiters.deep_view(), caller@),
{
    let ghost all = arbiters.deep_view();
    let mut i: usize = 0;
    while i < arbiters.len()
        invariant
            i <= arbiters@.len(),
            all == arbiters.deep_view(),
            all.len() == arbiters@.len(),
            forall|j: int| 0 <= j < i ==> all[j] != caller@,
        decreases arbiters@.len() - i,
    {
        if arbiters[i] == *caller {
            proof {
                assert(all[i as int] == caller@);
            }
            return true;
        }
        i = i + 1;
    }
    false
}

/// Whether `caller` may edit or withdraw the listing.
pub fn can_edit_or_delete(l: &Listing, caller: &String) -> (r: bool)
    ensures
        r == spec_can_edit_or_delete(l@, caller@),
{
    is_seller(l, caller) && !l.bought
}

/// Whether `caller` may sign the listing as shipped.
pub fn can_sign_shipped(l: &Listing, caller: &String, arbiters: &Vec<String>) -> (r: bool)
    ensures
        r == spec_can_sign_shipped(l@, caller@, arbiters.deep_view()),
{
    is_seller(l, caller) || is_arbiter(arbiters, caller)
}

/// Whether `caller` may sign the listing as received.
pub fn can_sign_received(l: &Listing, caller: &String) -> (r: bool)
    ensures
        r == spec_can_sign_received(l@, caller@),
{
    is_buyer(l, caller) && l.shipped
}

/// Whether the listing can still be purchased.
pub fn can_purchase(l: &Listing) -> (r: bool)
    ensures
        r == spec_can_purchase(l@),
{
    !l.bought
}

/// Whether `caller` may cancel the purchase.
pub fn can_cancel_purchase(l: &Listing, caller: &String) -> (r: bool)
    ensures
        r == spec_can_cancel_purchase(l@, caller@),
{
    l.bought && !l.shipped && is_buyer(l, caller)
}

/// Whether `caller` may request arbitration.
pub fn can_request_arbitration(l: &Listing, caller: &String) -> (r: bool)
    ensures
        r == spec_can_request_arbitration(l@, caller@),
{
    l.shipped && l.bought && (is_seller(l, caller) || is_buyer(l, caller))
}

/// Whether `caller` may arbitrate the dispute.
pub fn can_arbitrate(l: &Listing, caller: &String, arbiters: &Vec<String>) -> (r: bool)
    ensures
        r == spec_can_arbitrate(l@, caller@, arbiters.deep_view()),
{
    is_arbiter(arbiters, caller) && l.arbitration_requested
}

} // verus!
