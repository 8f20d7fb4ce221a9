//! The listing lifecycle as a mathematical state machine.
//!
//! `MarketView` abstracts the whole marketplace; each transition below is a
//! pure function from a pre-state and a request to either the post-state
//! (with the transfer instructions the transition emits) or the exact error
//! the request earns. The executable methods implement these functions
//! verbatim: every method's contract says that its outcome and post-state
//! equal the step function's.
//!
//! Validation precedes authorization, which precedes mutation; on any
//! error the state is unchanged.

use crate::auth::{
    spec_can_purchase, spec_can_sign_shipped, spec_is_arbiter, spec_is_buyer, spec_is_seller,
};
use crate::coin_helpers::{paid_amount, CoinView};
use crate::error::ContractError;
use crate::funds::{arbitration_transfers, refund_transfers, settlement_transfers, TransferView};
use crate::state::{
    cancelled_listing, created_listing, disputed_listing, edited_listing, flags_ok,
    purchased_listing, shipped_listing, ListingView,
};
use crate::store::{get_by_id, ids_ascending, ids_in_range, index_of_id};
use vstd::prelude::*;

verus! {

/// The byte-length cap on a listing's description text.
pub const MAX_TEXT_LENGTH: usize = 499;

/// The byte-length cap on a listing's content reference.
pub const MAX_ID_LENGTH: usize = 128;

/// The abstraction of the whole marketplace: the live listings in
/// ascending id order, the two counters, and the configuration.
pub struct MarketView {
    pub listings: Seq<ListingView>,
    pub last_listing_id: u64,
    pub listing_count: u64,
    pub admin: Seq<char>,
    pub arbiters: Seq<Seq<char>>,
    pub denom: Seq<char>,
    pub gateway: Seq<char>,
}

/// Marketplace well-formedness: the store invariants plus the lifecycle
/// flag invariant of every live listing.
pub open spec fn market_wf(m: MarketView) -> bool {
    &&& ids_ascending(m.listings)
    &&& ids_in_range(m.listings, m.last_listing_id)
    &&& m.listing_count == m.listings.len()
    &&& forall|i: int| 0 <= i < m.listings.len() ==> flags_ok(#[trigger] m.listings[i])
}

/// The number of bytes a character sequence encodes to.
pub open spec fn byte_len(s: Seq<char>) -> int {
    vstd::utf8::encode_utf8(s).len() as int
}

/// The field validation shared by `create` and `edit`: the text cap, the
/// reference cap, then the gateway prefix, in that order.
pub open spec fn field_validation_error(
    m: MarketView,
    external_id: Seq<char>,
    text: Seq<char>,
) -> Option<ContractError> {
    if byte_len(text) > MAX_TEXT_LENGTH as int {
        Some(ContractError::ContentTooLong)
    } else if byte_len(external_id) > MAX_ID_LENGTH as int {
        Some(ContractError::LinkTooLong)
    } else if !m.gateway.is_prefix_of(external_id) {
        Some(ContractError::InvalidGateway)
    } else {
        None
    }
}

/// `create`: validate the fields, allocate the next id, persist the new
/// listing with all flags false, and raise the live counter. Anyone may
/// create.
pub open spec fn create_step(
    m: MarketView,
    sender: Seq<char>,
    listing_title: Seq<char>,
    external_id: Seq<char>,
    text: Seq<char>,
    tags: Seq<Seq<char>>,
    contact: Seq<char>,
    price: u64,
    created_at: Seq<char>,
) -> Result<(MarketView, u64), ContractError>
    recommends
        m.last_listing_id < u64::MAX,
{
    match field_validation_error(m, external_id, text) {
        Some(e) => Err(e),
        None => {
            let id = (m.last_listing_id + 1) as u64;
            let l = created_listing(
                id,
                listing_title,
                external_id,
                text,
                tags,
                sender,
                contact,
                price,
                created_at,
            );
            Ok(
                (
                    MarketView {
                        listings: m.listings.push(l),
                        last_listing_id: id,
                        listing_count: (m.listing_count + 1) as u64,
                        ..m
                    },
                    id,
                ),
            )
        },
    }
}

/// `edit`: validate the fields, then require the listing to be live, the
/// caller to be its seller, and the listing unpurchased; replace the
/// mutable fields and stamp the edit time.
pub open spec fn edit_step(
    m: MarketView,
    sender: Seq<char>,
    listing_id: u64,
    external_id: Seq<char>,
    text: Seq<char>,
    tags: Seq<Seq<char>>,
    price: u64,
    edited_at: Seq<char>,
) -> Result<MarketView, ContractError> {
    match field_validation_error(m, external_id, text) {
        Some(e) => Err(e),
        None => match get_by_id(m.listings, listing_id) {
            None => Err(ContractError::NotFound),
            Some(l) => if !spec_is_seller(l, sender) {
                Err(ContractError::Unauthorized)
            } else if l.bought {
                Err(ContractError::AlreadyPurchased)
            } else {
                Ok(
                    MarketView {
                        listings: m.listings.update(
                            index_of_id(m.listings, listing_id),
                            edited_listing(l, external_id, text, tags, price, edited_at),
                        ),
                        ..m
                    },
                )
            },
        },
    }
}

/// `delete`: the seller withdraws the listing; the record goes away and
/// the live counter drops. Deletion is not gated on the purchase state.
pub open spec fn delete_step(m: MarketView, sender: Seq<char>, listing_id: u64) -> Result<
    MarketView,
    ContractError,
> {
    match get_by_id(m.listings, listing_id) {
        None => Err(ContractError::NotFound),
        Some(l) => if !spec_is_seller(l, sender) {
            Err(ContractError::Unauthorized)
        } else {
            Ok(
                MarketView {
                    listings: m.listings.remove(index_of_id(m.listings, listing_id)),
                    listing_count: (m.listing_count - 1) as u64,
                    ..m
                },
            )
        },
    }
}

/// `purchase`: on an unpurchased live listing, with the attached payment
/// equal to the price in the settlement currency, record the caller as
/// buyer and lock the escrow.
pub open spec fn purchase_step(
    m: MarketView,
    sender: Seq<char>,
    funds: Seq<CoinView>,
    listing_id: u64,
) -> Result<MarketView, ContractError> {
    match get_by_id(m.listings, listing_id) {
        None => Err(ContractError::NotFound),
        Some(l) => if !spec_can_purchase(l) {
            Err(ContractError::AlreadyPurchased)
        } else if paid_amount(funds, m.denom) != l.price as int {
            Err(ContractError::IncorrectFunds)
        } else {
            Ok(
                MarketView {
                    listings: m.listings.update(
                        index_of_id(m.listings, listing_id),
                        purchased_listing(l, sender),
                    ),
                    ..m
                },
            )
        },
    }
}

/// `cancel_purchase`: the buyer of a purchased, not yet shipped listing
/// backs out; the escrow refunds the full price to the buyer and the
/// listing returns to the open state.
pub open spec fn cancel_step(m: MarketView, sender: Seq<char>, listing_id: u64) -> Result<
    (MarketView, Seq<TransferView>),
    ContractError,
> {
    match get_by_id(m.listings, listing_id) {
        None => Err(ContractError::NotFound),
        Some(l) => if !l.bought || l.shipped {
            Err(ContractError::NotEligible)
        } else if !spec_is_buyer(l, sender) {
            Err(ContractError::Unauthorized)
        } else {
            Ok(
                (
                    MarketView {
                        listings: m.listings.update(
                            index_of_id(m.listings, listing_id),
                            cancelled_listing(l),
                        ),
                        ..m
                    },
                    refund_transfers(l.buyer->Some_0, l.price, m.denom),
                ),
            )
        },
    }
}

/// `sign_shipped`: the seller (or an arbiter) marks the listing shipped.
/// Signing an already shipped listing is a no-op, not an error.
pub open spec fn ship_step(m: MarketView, sender: Seq<char>, listing_id: u64) -> Result<
    MarketView,
    ContractError,
> {
    match get_by_id(m.listings, listing_id) {
        None => Err(ContractError::NotFound),
        Some(l) => if !spec_can_sign_shipped(l, sender, m.arbiters) {
            Err(ContractError::Unauthorized)
        } else {
            Ok(
                MarketView {
                    listings: m.listings.update(
                        index_of_id(m.listings, listing_id),
                        shipped_listing(l),
                    ),
                    ..m
                },
            )
        },
    }
}

/// `sign_received`: the buyer confirms receipt of a shipped listing; the
/// escrow settles (seller's share then administrator's fee) and the
/// record is deleted, closing the escrow.
pub open spec fn receive_step(m: MarketView, sender: Seq<char>, listing_id: u64) -> Result<
    (MarketView, Seq<TransferView>),
    ContractError,
> {
    match get_by_id(m.listings, listing_id) {
        None => Err(ContractError::NotFound),
        Some(l) => if !l.shipped {
            Err(ContractError::NotShipped)
        } else if !spec_is_buyer(l, sender) {
            Err(ContractError::Unauthorized)
        } else {
            Ok(
                (
                    MarketView {
                        listings: m.listings.remove(index_of_id(m.listings, listing_id)),
                        listing_count: (m.listing_count - 1) as u64,
                        ..m
                    },
                    settlement_transfers(l.price, l.seller, m.admin, m.denom),
                ),
            )
        },
    }
}

/// `request_arbitration`: either party of a shipped purchase flags the
/// listing for dispute resolution.
pub open spec fn request_arbitration_step(
    m: MarketView,
    sender: Seq<char>,
    listing_id: u64,
) -> Result<MarketView, ContractError> {
    match get_by_id(m.listings, listing_id) {
        None => Err(ContractError::NotFound),
        Some(l) => if !(l.shipped && l.bought) {
            Err(ContractError::NotEligible)
        } else if !(spec_is_seller(l, sender) || spec_is_buyer(l, sender)) {
            Err(ContractError::Unauthorized)
        } else {
            Ok(
                MarketView {
                    listings: m.listings.update(
                        index_of_id(m.listings, listing_id),
                        disputed_listing(l),
                    ),
                    ..m
                },
            )
        },
    }
}

/// `arbitrate`: an arbiter resolves a requested dispute by paying the full
/// escrowed price to the seller or the buyer; the record is deleted,
/// closing the escrow.
pub open spec fn arbitrate_step(
    m: MarketView,
    sender: Seq<char>,
    listing_id: u64,
    recipient: Seq<char>,
) -> Result<(MarketView, Seq<TransferView>), ContractError> {
    match get_by_id(m.listings, listing_id) {
        None => Err(ContractError::NotFound),
        Some(l) => if !l.arbitration_requested {
            Err(ContractError::ArbitrationNotRequested)
        } else if !spec_is_arbiter(m.arbiters, sender) {
            Err(ContractError::Unauthorized)
        } else if recipient != l.seller && recipient != l.buyer->Some_0 {
            Err(ContractError::InvalidRecipient)
        } else {
            Ok(
                (
                    MarketView {
                        listings: m.listings.remove(index_of_id(m.listings, listing_id)),
                        listing_count: (m.listing_count - 1) as u64,
                        ..m
                    },
                    arbitration_transfers(recipient, l.price, m.denom),
                ),
            )
        },
    }
}

} // verus!
