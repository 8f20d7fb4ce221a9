//! The data model: listings and the singleton configuration.
//!
//! A `Listing` is a sale offer with associated escrow state. Its abstraction
//! is `ListingView`, a pure mathematical record over character sequences;
//! every contract in the crate speaks about views, never about heap values.

use vstd::prelude::*;

verus! {

/// Singleton configuration, set once at system initialization and read-only
/// afterward.
pub struct Config {
    /// The administrator principal; receives the settlement fee.
    pub admin: String,
}

/// The mathematical abstraction of a [`Listing`].
pub struct ListingView {
    pub listing_id: u64,
    pub listing_title: Seq<char>,
    pub external_id: Seq<char>,
    pub price: u64,
    pub text: Seq<char>,
    pub tags: Seq<Seq<char>>,
    pub seller: Seq<char>,
    pub contact: Seq<char>,
    pub bought: bool,
    pub buyer: Option<Seq<char>>,
    pub shipped: bool,
    pub received: bool,
    pub arbitration_requested: bool,
    pub creation_date: Seq<char>,
    pub last_edit_date: Option<Seq<char>>,
}

/// A sale offer with associated escrow state, keyed by `listing_id`.
///
/// The listing record's existence in the store is itself the signal that the
/// escrow is still open: settlement deletes the record.
#[derive(Debug)]
pub struct Listing {
    /// Unique identifier, assigned once at creation, immutable thereafter.
    pub listing_id: u64,
    /// Title, searched by the title query.
    pub listing_title: String,
    /// Opaque content-addressed reference; must start with the configured
    /// gateway prefix.
    pub external_id: String,
    /// Price in the settlement currency, immutable once purchased.
    pub price: u64,
    /// Bounded-length description text.
    pub text: String,
    pub tags: Vec<String>,
    /// Principal that created the listing, immutable.
    pub seller: String,
    /// Free-text off-chain contact hint.
    pub contact: String,
    /// Purchase flag; while set, the escrow holds the buyer's payment.
    pub bought: bool,
    /// The buyer principal; `None` until purchase, cleared on cancellation.
    pub buyer: Option<String>,
    /// Set by the seller (or an arbiter) when the item ships.
    pub shipped: bool,
    /// Kept for the record layout; settlement removes the listing instead of
    /// setting it.
    pub received: bool,
    /// Set when a party asks for dispute resolution.
    pub arbitration_requested: bool,
    /// Timestamp supplied by the caller's execution environment.
    pub creation_date: String,
    /// Timestamp of the last edit, if any.
    pub last_edit_date: Option<String>,
}

impl View for Listing {
    type V = ListingView;

    open spec fn view(&self) -> ListingView {
        ListingView {
            listing_id: self.listing_id,
            listing_title: self.listing_title@,
            external_id: self.external_id@,
            price: self.price,
            text: self.text@,
            tags: self.tags.deep_view(),
            seller: self.seller@,
            contact: self.contact@,
            bought: self.bought,
            buyer: self.buyer.deep_view(),
            shipped: self.shipped,
            received: self.received,
            arbitration_requested: self.arbitration_requested,
            creation_date: self.creation_date@,
            last_edit_date: self.last_edit_date.deep_view(),
        }
    }
}

impl DeepView for Listing {
    type V = ListingView;

    open spec fn deep_view(&self) -> ListingView {
        self.view()
    }
}

/// The lifecycle flag invariant of a single listing: arbitration can only be
/// requested on a shipped purchase, and a buyer is recorded exactly while the
/// listing is purchased.
pub open spec fn flags_ok(l: ListingView) -> bool {
    &&& l.arbitration_requested ==> l.shipped && l.bought
    &&& l.bought <==> l.buyer is Some
}

/// The record a successful `create` persists: all lifecycle flags false.
pub open spec fn created_listing(
    listing_id: u64,
    listing_title: Seq<char>,
    external_id: Seq<char>,
    text: Seq<char>,
    tags: Seq<Seq<char>>,
    seller: Seq<char>,
    contact: Seq<char>,
    price: u64,
    created_at: Seq<char>,
) -> ListingView {
    ListingView {
        listing_id,
        listing_title,
        external_id,
        price,
        text,
        tags,
        seller,
        contact,
        bought: false,
        buyer: None,
        shipped: false,
        received: false,
        arbitration_requested: false,
        creation_date: created_at,
        last_edit_date: None,
    }
}

/// The record a successful `edit` leaves: mutable fields replaced, identity
/// and lifecycle state kept, edit timestamp set.
pub open spec fn edited_listing(
    l: ListingView,
    external_id: Seq<char>,
    text: Seq<char>,
    tags: Seq<Seq<char>>,
    price: u64,
    edited_at: Seq<char>,
) -> ListingView {
    ListingView {
        external_id,
        text,
        tags,
        price,
        last_edit_date: Some(edited_at),
        ..l
    }
}

/// The record after a successful purchase.
pub open spec fn purchased_listing(l: ListingView, buyer: Seq<char>) -> ListingView {
    ListingView { bought: true, buyer: Some(buyer), ..l }
}

/// The record after a purchase cancellation.
pub open spec fn cancelled_listing(l: ListingView) -> ListingView {
    ListingView { bought: false, buyer: None, ..l }
}

/// The record after the seller signs shipment.
pub open spec fn shipped_listing(l: ListingView) -> ListingView {
    ListingView { shipped: true, ..l }
}

/// The record after a party requests arbitration.
pub open spec fn disputed_listing(l: ListingView) -> ListingView {
    ListingView { arbitration_requested: true, ..l }
}

/// Clones a vector of strings; the copy has the same view.
pub fn clone_strings(v: &Vec<String>) -> (r: Vec<String>)
    ensures
        r.deep_view() == v.deep_view(),
{
    let mut r: Vec<String> = Vec::new();
    let mut i: usize = 0;
    while i < v.len()
        invariant
            i <= v.len(),
            r@.len() == i,
            forall|j: int| 0 <= j < i ==> (#[trigger] r@[j])@ == v@[j]@,
        decreases v.len() - i,
    {
        r.push(v[i].clone());
        i = i + 1;
    }
    proof {
        assert forall|j: int| 0 <= j < v@.len() implies r.deep_view()[j] == v.deep_view()[j] by {
            assert(r@[j]@ == v@[j]@);
        }
        assert(r.deep_view() =~= v.deep_view());
    }
    r
}

impl Clone for Listing {
    /// The copy abstracts to the same view.
    fn clone(&self) -> (r: Listing)
        ensures
            r@ == self@,
    {
        let r = Listing {
            listing_id: self.listing_id,
            listing_title: self.listing_title.clone(),
            external_id: self.external_id.clone(),
            price: self.price,
            text: self.text.clone(),
            tags: clone_strings(&self.tags),
            seller: self.seller.clone(),
            contact: self.contact.clone(),
            bought: self.bought,
            buyer: match &self.buyer {
                Some(b) => Some(b.clone()),
                None => None,
            },
            shipped: self.shipped,
            received: self.received,
            arbitration_requested: self.arbitration_requested,
            creation_date: self.creation_date.clone(),
            last_edit_date: match &self.last_edit_date {
                Some(d) => Some(d.clone()),
                None => None,
            },
        };
        r
    }
}

} // verus!
