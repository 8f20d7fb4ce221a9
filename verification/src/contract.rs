//! The marketplace: configuration, arbiter set, and the listing store,
//! with the lifecycle transitions and the read-only queries.
//!
//! Every transition's contract equates its outcome and post-state with the
//! corresponding step function of [`crate::transitions`]; the step
//! functions are the single mathematical description of the lifecycle.

use crate::auth::{can_sign_shipped, is_arbiter, is_buyer, is_seller};
use crate::coin_helpers::{pays_exactly, Coin};
use crate::error::ContractError;
use crate::funds::{route_arbitration, route_refund, route_settlement, TransferInstruction,
    TransferView};
use crate::msg::{
    AllListingsResponse, ArbitrationListingsResponse, ExecuteMsg, ExecuteResponse,
    ListingCountResponse, ListingResponse, QueryAnswer, QueryMsg, SearchListingsResponse,
};
use crate::queries::{
    clamp_limit, collect_desc, effective_limit, lemma_filter_congruence, page_desc, page_pred,
    search_results, selector_matches, title_search_pred, Selector,
};
use crate::state::{flags_ok, Config, Listing, ListingView};
use crate::store::{
    get_by_id, lemma_get_absent, lemma_get_present, lemma_index_of_id, ListingStore,
};
use crate::support::{is_false, lowercase, str_starts_with};
use crate::transitions::{
    arbitrate_step, cancel_step, create_step, delete_step, edit_step, market_wf, purchase_step,
    receive_step, request_arbitration_step, ship_step, MarketView, MAX_ID_LENGTH, MAX_TEXT_LENGTH,
};
use vstd::prelude::*;

verus! {

/// The marketplace ledger: the configuration set at initialization, the
/// fixed arbiter set, the settlement currency, the allow-listed gateway
/// prefix, and the listing store.
pub struct Marketplace {
    pub config: Config,
    pub arbiters: Vec<String>,
    pub denom: String,
    pub gateway: String,
    pub store: ListingStore,
}

impl View for Marketplace {
    type V = MarketView;

    open spec fn view(&self) -> MarketView {
        MarketView {
            listings: self.store.listings.deep_view(),
            last_listing_id: self.store.last_listing_id,
            listing_count: self.store.listing_count,
            admin: self.config.admin@,
            arbiters: self.arbiters.deep_view(),
            denom: self.denom@,
            gateway: self.gateway@,
        }
    }
}

impl Marketplace {
    pub open spec fn wf(self) -> bool {
        market_wf(self@)
    }

    /// Initializes an empty marketplace: the administrator, arbiter set,
    /// settlement currency, and gateway prefix are fixed here and
    /// read-only afterward.
    pub fn new(admin: String, arbiters: Vec<String>, denom: String, gateway: String) -> (r:
        Marketplace)
        ensures
            r@.listings == Seq::<ListingView>::empty(),
            r@.last_listing_id == 0,
            r@.listing_count == 0,
            r@.admin == admin@,
            r@.arbiters == arbiters.deep_view(),
            r@.denom == denom@,
            r@.gateway == gateway@,
            r.wf(),
    {
        let r = Marketplace {
            config: Config { admin },
            arbiters,
            denom,
            gateway,
            store: ListingStore::new(),
        };
        proof {
            assert(r@.listings =~= Seq::<ListingView>::empty());
        }
        r
    }

    /// Creates a listing: validates the fields, allocates the next id, and
    /// persists the new record with all lifecycle flags false. Anyone may
    /// create; the caller becomes the seller.
    pub fn create_listing(
        &mut self,
        sender: String,
        listing_title: String,
        external_id: String,
        text: String,
        tags: Vec<String>,
        contact: String,
        price: u64,
        created_at: String,
    ) -> (r: Result<u64, ContractError>)
        requires
            old(self).wf(),
            old(self)@.last_listing_id < u64::MAX,
        ensures
            final(self).wf(),
            match create_step(
                old(self)@,
                sender@,
                listing_title@,
                external_id@,
                text@,
                tags.deep_view(),
                contact@,
                price,
                created_at@,
            ) {
                Ok((m2, id)) => r == Ok::<u64, ContractError>(id) && final(self)@ == m2,
                Err(e) => r == Err::<u64, ContractError>(e) && final(self)@ == old(self)@,
            },
    {
        if text.as_str().as_bytes().len() > MAX_TEXT_LENGTH {
            return Err(ContractError::ContentTooLong);
        }
        if external_id.as_str().as_bytes().len() > MAX_ID_LENGTH {
            return Err(ContractError::LinkTooLong);
        }
        if is_false(str_starts_with(external_id.as_str(), self.gateway.as_str())) {
            return Err(ContractError::InvalidGateway);
        }
        let id = self.store.allocate_id();
        let l = Listing {
            listing_id: id,
            listing_title,
            external_id,
            price,
            text,
            tags,
            seller: sender,
            contact,
            bought: false,
            buyer: None,
            shipped: false,
            received: false,
            arbitration_requested: false,
            creation_date: created_at,
            last_edit_date: None,
        };
        self.store.push_fresh(l);
        proof {
            assert forall|j: int| 0 <= j < self@.listings.len() implies flags_ok(
                #[trigger] self@.listings[j],
            ) by {
                if j < old(self)@.listings.len() {
                    assert(self@.listings[j] == old(self)@.listings[j]);
                }
            }
        }
        Ok(id)
    }

    /// Edits a listing: same field validation as creation, then only the
    /// seller may edit and only while the listing is unpurchased. The
    /// mutable fields are replaced and the edit time is stamped.
    pub fn edit_listing(
        &mut self,
        sender: String,
        listing_id: u64,
        external_id: String,
        text: String,
        tags: Vec<String>,
        price: u64,
        edited_at: String,
    ) -> (r: Result<(), ContractError>)
        requires
            old(self).wf(),
        ensures
            final(self).wf(),
            match edit_step(
                old(self)@,
                sender@,
                listing_id,
                external_id@,
                text@,
                tags.deep_view(),
                price,
                edited_at@,
            ) {
                Ok(m2) => r is Ok && final(self)@ == m2,
                Err(e) => r == Err::<(), ContractError>(e) && final(self)@ == old(self)@,
            },
    {
        if text.as_str().as_bytes().len() > MAX_TEXT_LENGTH {
            return Err(ContractError::ContentTooLong);
        }
        if external_id.as_str().as_bytes().len() > MAX_ID_LENGTH {
            return Err(ContractError::LinkTooLong);
        }
        if is_false(str_starts_with(external_id.as_str(), self.gateway.as_str())) {
            return Err(ContractError::InvalidGateway);
        }
        match self.store.find(listing_id) {
            None => {
                proof {
                    lemma_get_absent(self@.listings, listing_id);
                }
                Err(ContractError::NotFound)
            },
            Some(i) => {
                proof {
                    lemma_get_present(self@.listings, i as int);
                    lemma_index_of_id(self@.listings, i as int);
                }
                let seller_ok = {
                    let l = &self.store.listings[i];
                    is_seller(l, &sender)
                };
                if !seller_ok {
                    return Err(ContractError::Unauthorized);
                }
                if self.store.listings[i].bought {
                    return Err(ContractError::AlreadyPurchased);
                }
                let mut nl = self.store.listings[i].clone();
                nl.external_id = external_id;
                nl.text = text;
                nl.tags = tags;
                nl.price = price;
                nl.last_edit_date = Some(edited_at);
                self.store.replace_at(i, nl);
                proof {
                    assert forall|j: int| 0 <= j < self@.listings.len() implies flags_ok(
                        #[trigger] self@.listings[j],
                    ) by {
                        if j != i {
                            assert(self@.listings[j] == old(self)@.listings[j]);
                        }
                    }
                }
                Ok(())
            },
        }
    }

    /// Withdraws a listing: only the seller may delete, and deletion is
    /// not gated on the purchase state. The record goes away and the live
    /// counter drops.
    pub fn delete_listing(&mut self, sender: String, listing_id: u64) -> (r: Result<
        (),
        ContractError,
    >)
        requires
            old(self).wf(),
        ensures
            final(self).wf(),
            match delete_step(old(self)@, sender@, listing_id) {
                Ok(m2) => r is Ok && final(self)@ == m2,
                Err(e) => r == Err::<(), ContractError>(e) && final(self)@ == old(self)@,
            },
    {
        match self.store.find(listing_id) {
            None => {
                proof {
                    lemma_get_absent(self@.listings, listing_id);
                }
                Err(ContractError::NotFound)
            },
            Some(i) => {
                proof {
                    lemma_get_present(self@.listings, i as int);
                    lemma_index_of_id(self@.listings, i as int);
                }
                let seller_ok = {
                    let l = &self.store.listings[i];
                    is_seller(l, &sender)
                };
                if !seller_ok {
                    return Err(ContractError::Unauthorized);
                }
                self.store.remove_at(i);
                proof {
                    assert forall|j: int| 0 <= j < self@.listings.len() implies flags_ok(
                        #[trigger] self@.listings[j],
                    ) by {
                        if j < i {
                            assert(self@.listings[j] == old(self)@.listings[j]);
                        } else {
                            assert(self@.listings[j] == old(self)@.listings[j + 1]);
                        }
                    }
                }
                Ok(())
            },
        }
    }

    /// Purchases a listing: it must not be purchased already and the
    /// attached payment must equal the price exactly in the settlement
    /// currency. The caller becomes the buyer and the escrow locks.
    pub fn purchase(&mut self, sender: String, funds: Vec<Coin>, listing_id: u64) -> (r: Result<
        (),
        ContractError,
    >)
        requires
            old(self).wf(),
        ensures
            final(self).wf(),
            match purchase_step(old(self)@, sender@, funds.deep_view(), listing_id) {
                Ok(m2) => r is Ok && final(self)@ == m2,
                Err(e) => r == Err::<(), ContractError>(e) && final(self)@ == old(self)@,
            },
    {
        match self.store.find(listing_id) {
            None => {
                proof {
                    lemma_get_absent(self@.listings, listing_id);
                }
                Err(ContractError::NotFound)
            },
            Some(i) => {
                proof {
                    lemma_get_present(self@.listings, i as int);
                    lemma_index_of_id(self@.listings, i as int);
                }
                if self.store.listings[i].bought {
                    return Err(ContractError::AlreadyPurchased);
                }
                let price = self.store.listings[i].price;
                if !pays_exactly(&funds, &self.denom, price) {
                    return Err(ContractError::IncorrectFunds);
                }
                let mut nl = self.store.listings[i].clone();
                nl.bought = true;
                nl.buyer = Some(sender);
                self.store.replace_at(i, nl);
                proof {
                    assert forall|j: int| 0 <= j < self@.listings.len() implies flags_ok(
                        #[trigger] self@.listings[j],
                    ) by {
                        if j != i {
                            assert(self@.listings[j] == old(self)@.listings[j]);
                        }
                    }
                }
                Ok(())
            },
        }
    }

    /// Cancels a purchase: only the buyer, and only while the listing has
    /// not shipped. The escrow refunds the full price to the buyer and the
    /// listing reopens.
    pub fn cancel_purchase(&mut self, sender: String, listing_id: u64) -> (r: Result<
        Vec<TransferInstruction>,
        ContractError,
    >)
        requires
            old(self).wf(),
        ensures
            final(self).wf(),
            match cancel_step(old(self)@, sender@, listing_id) {
                Ok((m2, ts)) => r matches Ok(v) && v.deep_view() == ts && final(self)@ == m2,
                Err(e) => r == Err::<Vec<TransferInstruction>, ContractError>(e) && final(self)@
                    == old(self)@,
            },
    {
        match self.store.find(listing_id) {
            None => {
                proof {
                    lemma_get_absent(self@.listings, listing_id);
                }
                Err(ContractError::NotFound)
            },
            Some(i) => {
                proof {
                    lemma_get_present(self@.listings, i as int);
                    lemma_index_of_id(self@.listings, i as int);
                }
                if !self.store.listings[i].bought || self.store.listings[i].shipped {
                    return Err(ContractError::NotEligible);
                }
                let buyer_ok = {
                    let l = &self.store.listings[i];
                    is_buyer(l, &sender)
                };
                if !buyer_ok {
                    return Err(ContractError::Unauthorized);
                }
                // The refund goes to the recorded buyer, who is exactly the
                // caller here.
                let price = self.store.listings[i].price;
                let transfers = route_refund(&sender, price, &self.denom);
                let mut nl = self.store.listings[i].clone();
                nl.bought = false;
                nl.buyer = None;
                self.store.replace_at(i, nl);
                proof {
                    assert forall|j: int| 0 <= j < self@.listings.len() implies flags_ok(
                        #[trigger] self@.listings[j],
                    ) by {
                        if j != i {
                            assert(self@.listings[j] == old(self)@.listings[j]);
                        }
                    }
                }
                Ok(transfers)
            },
        }
    }

    /// Confirms receipt: only the buyer, and only after shipment. The
    /// escrow settles — the seller's share first, then the administrator's
    /// fee — and the record is deleted, closing the escrow.
    pub fn sign_received(&mut self, sender: String, listing_id: u64) -> (r: Result<
        Vec<TransferInstruction>,
        ContractError,
    >)
        requires
            old(self).wf(),
        ensures
            final(self).wf(),
            match receive_step(old(self)@, sender@, listing_id) {
                Ok((m2, ts)) => r matches Ok(v) && v.deep_view() == ts && final(self)@ == m2,
                Err(e) => r == Err::<Vec<TransferInstruction>, ContractError>(e) && final(self)@
                    == old(self)@,
            },
    {
        match self.store.find(listing_id) {
            None => {
                proof {
                    lemma_get_absent(self@.listings, listing_id);
                }
                Err(ContractError::NotFound)
            },
            Some(i) => {
                proof {
                    lemma_get_present(self@.listings, i as int);
                    lemma_index_of_id(self@.listings, i as int);
                }
                if !self.store.listings[i].shipped {
                    return Err(ContractError::NotShipped);
                }
                let buyer_ok = {
                    let l = &self.store.listings[i];
                    is_buyer(l, &sender)
                };
                if !buyer_ok {
                    return Err(ContractError::Unauthorized);
                }
                let price = self.store.listings[i].price;
                let seller = self.store.listings[i].seller.clone();
                let transfers = route_settlement(price, &seller, &self.config.admin, &self.denom);
                self.store.remove_at(i);
                proof {
                    assert forall|j: int| 0 <= j < self@.listings.len() implies flags_ok(
                        #[trigger] self@.listings[j],
                    ) by {
                        if j < i {
                            assert(self@.listings[j] == old(self)@.listings[j]);
                        } else {
                            assert(self@.listings[j] == old(self)@.listings[j + 1]);
                        }
                    }
                }
                Ok(transfers)
            },
        }
    }

    /// Requests arbitration: either party of a shipped purchase may flag
    /// the listing for dispute resolution.
    pub fn request_arbitration(&mut self, sender: String, listing_id: u64) -> (r: Result<
        (),
        ContractError,
    >)
        requires
            old(self).wf(),
        ensures
            final(self).wf(),
            match request_arbitration_step(old(self)@, sender@, listing_id) {
                Ok(m2) => r is Ok && final(self)@ == m2,
                Err(e) => r == Err::<(), ContractError>(e) && final(self)@ == old(self)@,
            },
    {
        match self.store.find(listing_id) {
            None => {
                proof {
                    lemma_get_absent(self@.listings, listing_id);
                }
                Err(ContractError::NotFound)
            },
            Some(i) => {
                proof {
                    lemma_get_present(self@.listings, i as int);
                    lemma_index_of_id(self@.listings, i as int);
                }
                if !(self.store.listings[i].shipped && self.store.listings[i].bought) {
                    return Err(ContractError::NotEligible);
                }
                let party_ok = {
                    let l = &self.store.listings[i];
                    is_seller(l, &sender) || is_buyer(l, &sender)
                };
                if !party_ok {
                    return Err(ContractError::Unauthorized);
                }
                let mut nl = self.store.listings[i].clone();
                nl.arbitration_requested = true;
                self.store.replace_at(i, nl);
                proof {
                    assert forall|j: int| 0 <= j < self@.listings.len() implies flags_ok(
                        #[trigger] self@.listings[j],
                    ) by {
                        if j != i {
                            assert(self@.listings[j] == old(self)@.listings[j]);
                        }
                    }
                }
                Ok(())
            },
        }
    }

    /// Arbitrates a requested dispute: only an arbiter, and the funds
    /// recipient must be the seller or the buyer. The full escrowed price
    /// goes to the recipient and the record is deleted.
    pub fn arbitrate(&mut self, sender: String, listing_id: u64, funds_recipient: String) -> (r:
        Result<Vec<TransferInstruction>, ContractError>)
        requires
            old(self).wf(),
        ensures
            final(self).wf(),
            match arbitrate_step(old(self)@, sender@, listing_id, funds_recipient@) {
                Ok((m2, ts)) => r matches Ok(v) && v.deep_view() == ts && final(self)@ == m2,
                Err(e) => r == Err::<Vec<TransferInstruction>, ContractError>(e) && final(self)@
                    == old(self)@,
            },
    {
        match self.store.find(listing_id) {
            None => {
                proof {
                    lemma_get_absent(self@.listings, listing_id);
                }
                Err(ContractError::NotFound)
            },
            Some(i) => {
                proof {
                    lemma_get_present(self@.listings, i as int);
                    lemma_index_of_id(self@.listings, i as int);
                }
                if !self.store.listings[i].arbitration_requested {
                    return Err(ContractError::ArbitrationNotRequested);
                }
                if !is_arbiter(&self.arbiters, &sender) {
                    return Err(ContractError::Unauthorized);
                }
                let recipient_ok = {
                    let l = &self.store.listings[i];
                    if funds_recipient == l.seller {
                        true
                    } else {
                        match &l.buyer {
                            Some(b) => funds_recipient == *b,
                            None => {
                                // A requested arbitration implies a live
                                // purchase, so a buyer is recorded.
                                proof {
                                    assert(flags_ok(old(self)@.listings[i as int]));
                                    assert(false);
                                }
                                false
                            },
                        }
                    }
                };
                if !recipient_ok {
                    return Err(ContractError::InvalidRecipient);
                }
                let price = self.store.listings[i].price;
                let transfers = route_arbitration(&funds_recipient, price, &self.denom);
                self.store.remove_at(i);
                proof {
                    assert forall|j: int| 0 <= j < self@.listings.len() implies flags_ok(
                        #[trigger] self@.listings[j],
                    ) by {
                        if j < i {
                            assert(self@.listings[j] == old(self)@.listings[j]);
                        } else {
                            assert(self@.listings[j] == old(self)@.listings[j + 1]);
                        }
                    }
                }
                Ok(transfers)
            },
        }
    }

    /// The seller (or an arbiter) marks the listing shipped. Re-signing an
    /// already shipped listing succeeds and changes nothing.
    pub fn sign_shipped(&mut self, sender: String, listing_id: u64) -> (r: Result<
        (),
        ContractError,
    >)
        requires
            old(self).wf(),
        ensures
            final(self).wf(),
            match ship_step(old(self)@, sender@, listing_id) {
                Ok(m2) => r is Ok && final(self)@ == m2,
                Err(e) => r == Err::<(), ContractError>(e) && final(self)@ == old(self)@,
            },
    {
        match self.store.find(listing_id) {
            None => {
                proof {
                    lemma_get_absent(self@.listings, listing_id);
                }
                Err(ContractError::NotFound)
            },
            Some(i) => {
                proof {
                    lemma_get_present(self@.listings, i as int);
                    lemma_index_of_id(self@.listings, i as int);
                }
                let allowed = {
                    let l = &self.store.listings[i];
                    can_sign_shipped(l, &sender, &self.arbiters)
                };
                if !allowed {
                    return Err(ContractError::Unauthorized);
                }
                let mut nl = self.store.listings[i].clone();
                nl.shipped = true;
                self.store.replace_at(i, nl);
                proof {
                    assert forall|j: int| 0 <= j < self@.listings.len() implies flags_ok(
                        #[trigger] self@.listings[j],
                    ) by {
                        if j != i {
                            assert(self@.listings[j] == old(self)@.listings[j]);
                        }
                    }
                }
                Ok(())
            },
        }
    }

    /// Point lookup of a live listing.
    pub fn get_listing(&self, listing_id: u64) -> (r: Option<&Listing>)
        requires
            self.wf(),
        ensures
            match r {
                Some(l) => get_by_id(self@.listings, listing_id) == Some(l@),
                None => get_by_id(self@.listings, listing_id) is None,
            },
    {
        self.store.get(listing_id)
    }

    /// The number of live listings.
    pub fn listing_count(&self) -> (r: u64)
        ensures
            r == self@.listing_count,
    {
        self.store.count()
    }

    /// One page of all live listings, descending by id, with exclusive
    /// `start_after` bound and the defaulted, capped limit.
    pub fn all_listings(&self, limit: Option<u32>, start_after: Option<u64>) -> (r:
        AllListingsResponse)
        ensures
            r.listings.deep_view() == page_desc(
                self@.listings,
                start_after,
                effective_limit(limit),
                Selector::All,
            ),
    {
        let lim = clamp_limit(limit);
        AllListingsResponse {
            listings: collect_desc(&self.store.listings, start_after, lim, &Selector::All),
        }
    }

    /// One page of the listings with a pending arbitration request,
    /// descending by id.
    pub fn arbitration_listings(&self, limit: Option<u32>, start_after: Option<u64>) -> (r:
        ArbitrationListingsResponse)
        ensures
            r.listings.deep_view() == page_desc(
                self@.listings,
                start_after,
                effective_limit(limit),
                Selector::Disputed,
            ),
    {
        let lim = clamp_limit(limit);
        ArbitrationListingsResponse {
            listings: collect_desc(&self.store.listings, start_after, lim, &Selector::Disputed),
        }
    }

    /// The live listings whose title contains the query, compared
    /// case-insensitively, up to the defaulted, capped limit.
    pub fn search_listings_by_title(&self, title: &String, limit: Option<u32>) -> (r:
        SearchListingsResponse)
        ensures
            r.listings.deep_view() == search_results(
                self@.listings,
                title@,
                effective_limit(limit),
            ),
    {
        let lim = clamp_limit(limit);
        let lowered = lowercase(title.as_str());
        let sel = Selector::TitleHas(lowered);
        let out = collect_desc(&self.store.listings, None, lim, &sel);
        proof {
            let p1 = page_pred(None, sel);
            let p2 = title_search_pred(title@);
            assert forall|l: ListingView| #[trigger] p1(l) == #[trigger] p2(l) by {
                assert(p1(l) == selector_matches(sel, l));
            }
            lemma_filter_congruence(self@.listings.reverse(), p1, p2);
        }
        SearchListingsResponse { listings: out }
    }

    /// Dispatches one read-only query; never mutates the store.
    pub fn query(&self, msg: QueryMsg) -> (r: QueryAnswer)
        requires
            self.wf(),
        ensures
            match msg {
                QueryMsg::AllListings { limit, start_after } => r matches QueryAnswer::AllListings(
                    a,
                ) && a.listings.deep_view() == page_desc(
                    self@.listings,
                    start_after,
                    effective_limit(limit),
                    Selector::All,
                ),
                QueryMsg::Listing { listing_id } => r matches QueryAnswer::Listing(a)
                    && a.listing.deep_view() == get_by_id(self@.listings, listing_id),
                QueryMsg::ListingCount {  } => r matches QueryAnswer::ListingCount(a)
                    && a.listing_count == self@.listing_count,
                QueryMsg::ArbitrationListings { limit, start_after } => r
                    matches QueryAnswer::ArbitrationListings(a) && a.listings.deep_view()
                    == page_desc(
                    self@.listings,
                    start_after,
                    effective_limit(limit),
                    Selector::Disputed,
                ),
                QueryMsg::SearchListingsByTitle { title, limit } => r
                    matches QueryAnswer::SearchListings(a) && a.listings.deep_view()
                    == search_results(self@.listings, title@, effective_limit(limit)),
            },
    {
        match msg {
            QueryMsg::AllListings { limit, start_after } => QueryAnswer::AllListings(
                self.all_listings(limit, start_after),
            ),
            QueryMsg::Listing { listing_id } => {
                let listing = match self.get_listing(listing_id) {
                    Some(l) => Some(l.clone()),
                    None => None,
                };
                QueryAnswer::Listing(ListingResponse { listing })
            },
            QueryMsg::ListingCount {  } => QueryAnswer::ListingCount(
                ListingCountResponse { listing_count: self.listing_count() },
            ),
            QueryMsg::ArbitrationListings { limit, start_after } => {
                QueryAnswer::ArbitrationListings(self.arbitration_listings(limit, start_after))
            },
            QueryMsg::SearchListingsByTitle { title, limit } => QueryAnswer::SearchListings(
                self.search_listings_by_title(&title, limit),
            ),
        }
    }

    /// Dispatches one lifecycle action: the sender and attached funds come
    /// from the caller's execution environment, `now` is its clock. The
    /// outcome names the listing acted on and carries the emitted
    /// transfer instructions.
    pub fn execute(&mut self, sender: String, funds: Vec<Coin>, now: String, msg: ExecuteMsg) -> (r:
        Result<ExecuteResponse, ContractError>)
        requires
            old(self).wf(),
            msg is CreateListing ==> old(self)@.last_listing_id < u64::MAX,
        ensures
            final(self).wf(),
            match msg {
                ExecuteMsg::CreateListing {
                    listing_title,
                    external_id,
                    text,
                    tags,
                    contact,
                    price,
                } => match create_step(
                    old(self)@,
                    sender@,
                    listing_title@,
                    external_id@,
                    text@,
                    tags.deep_view(),
                    contact@,
                    price,
                    now@,
                ) {
                    Ok((m2, id)) => r matches Ok(resp) && resp.listing_id == id
                        && resp.transfers.deep_view() == Seq::<TransferView>::empty() && final(self)@ == m2,
                    Err(e) => r matches Err(e2) && e2 == e && final(self)@ == old(self)@,
                },
                ExecuteMsg::EditListing { listing_id, external_id, text, tags, price } => match edit_step(
                    old(self)@,
                    sender@,
                    listing_id,
                    external_id@,
                    text@,
                    tags.deep_view(),
                    price,
                    now@,
                ) {
                    Ok(m2) => r matches Ok(resp) && resp.listing_id == listing_id
                        && resp.transfers.deep_view() == Seq::<TransferView>::empty() && final(self)@ == m2,
                    Err(e) => r matches Err(e2) && e2 == e && final(self)@ == old(self)@,
                },
                ExecuteMsg::DeleteListing { listing_id } => match delete_step(
                    old(self)@,
                    sender@,
                    listing_id,
                ) {
                    Ok(m2) => r matches Ok(resp) && resp.listing_id == listing_id
                        && resp.transfers.deep_view() == Seq::<TransferView>::empty() && final(self)@ == m2,
                    Err(e) => r matches Err(e2) && e2 == e && final(self)@ == old(self)@,
                },
                ExecuteMsg::Purchase { listing_id } => match purchase_step(
                    old(self)@,
                    sender@,
                    funds.deep_view(),
                    listing_id,
                ) {
                    Ok(m2) => r matches Ok(resp) && resp.listing_id == listing_id
                        && resp.transfers.deep_view() == Seq::<TransferView>::empty() && final(self)@ == m2,
                    Err(e) => r matches Err(e2) && e2 == e && final(self)@ == old(self)@,
                },
                ExecuteMsg::CancelPurchase { listing_id } => match cancel_step(
                    old(self)@,
                    sender@,
                    listing_id,
                ) {
                    Ok((m2, ts)) => r matches Ok(resp) && resp.listing_id == listing_id
                        && resp.transfers.deep_view() == ts && final(self)@ == m2,
                    Err(e) => r matches Err(e2) && e2 == e && final(self)@ == old(self)@,
                },
                ExecuteMsg::SignShipped { listing_id } => match ship_step(
                    old(self)@,
                    sender@,
                    listing_id,
                ) {
                    Ok(m2) => r matches Ok(resp) && resp.listing_id == listing_id
                        && resp.transfers.deep_view() == Seq::<TransferView>::empty() && final(self)@ == m2,
                    Err(e) => r matches Err(e2) && e2 == e && final(self)@ == old(self)@,
                },
                ExecuteMsg::SignReceived { listing_id } => match receive_step(
                    old(self)@,
                    sender@,
                    listing_id,
                ) {
                    Ok((m2, ts)) => r matches Ok(resp) && resp.listing_id == listing_id
                        && resp.transfers.deep_view() == ts && final(self)@ == m2,
                    Err(e) => r matches Err(e2) && e2 == e && final(self)@ == old(self)@,
                },
                ExecuteMsg::RequestArbitration { listing_id } => match request_arbitration_step(
                    old(self)@,
                    sender@,
                    listing_id,
                ) {
                    Ok(m2) => r matches Ok(resp) && resp.listing_id == listing_id
                        && resp.transfers.deep_view() == Seq::<TransferView>::empty() && final(self)@ == m2,
                    Err(e) => r matches Err(e2) && e2 == e && final(self)@ == old(self)@,
                },
                ExecuteMsg::Arbitrate { listing_id, funds_recipient } => match arbitrate_step(
                    old(self)@,
                    sender@,
                    listing_id,
                    funds_recipient@,
                ) {
                    Ok((m2, ts)) => r matches Ok(resp) && resp.listing_id == listing_id
                        && resp.transfers.deep_view() == ts && final(self)@ == m2,
                    Err(e) => r matches Err(e2) && e2 == e && final(self)@ == old(self)@,
                },
            },
    {
        match msg {
            ExecuteMsg::CreateListing { listing_title, external_id, text, tags, contact, price } => {
                match self.create_listing(
                    sender,
                    listing_title,
                    external_id,
                    text,
                    tags,
                    contact,
                    price,
                    now,
                ) {
                    Ok(id) => {
                        let resp = ExecuteResponse { listing_id: id, transfers: Vec::new() };
                        proof {
                            assert(resp.transfers.deep_view() =~= Seq::<TransferView>::empty());
                        }
                        Ok(resp)
                    },
                    Err(e) => Err(e),
                }
            },
            ExecuteMsg::EditListing { listing_id, external_id, text, tags, price } => {
                match self.edit_listing(sender, listing_id, external_id, text, tags, price, now) {
                    Ok(()) => {
                        let resp = ExecuteResponse { listing_id, transfers: Vec::new() };
                        proof {
                            assert(resp.transfers.deep_view() =~= Seq::<TransferView>::empty());
                        }
                        Ok(resp)
                    },
                    Err(e) => Err(e),
                }
            },
            ExecuteMsg::DeleteListing { listing_id } => {
                match self.delete_listing(sender, listing_id) {
                    Ok(()) => {
                        let resp = ExecuteResponse { listing_id, transfers: Vec::new() };
                        proof {
                            assert(resp.transfers.deep_view() =~= Seq::<TransferView>::empty());
                        }
                        Ok(resp)
                    },
                    Err(e) => Err(e),
                }
            },
            ExecuteMsg::Purchase { listing_id } => {
                match self.purchase(sender, funds, listing_id) {
                    Ok(()) => {
                        let resp = ExecuteResponse { listing_id, transfers: Vec::new() };
                        proof {
                            assert(resp.transfers.deep_view() =~= Seq::<TransferView>::empty());
                        }
                        Ok(resp)
                    },
                    Err(e) => Err(e),
                }
            },
            ExecuteMsg::CancelPurchase { listing_id } => {
                match self.cancel_purchase(sender, listing_id) {
                    Ok(transfers) => Ok(ExecuteResponse { listing_id, transfers }),
                    Err(e) => Err(e),
                }
            },
            ExecuteMsg::SignShipped { listing_id } => {
                match self.sign_shipped(sender, listing_id) {
                    Ok(()) => {
                        let resp = ExecuteResponse { listing_id, transfers: Vec::new() };
                        proof {
                            assert(resp.transfers.deep_view() =~= Seq::<TransferView>::empty());
                        }
                        Ok(resp)
                    },
                    Err(e) => Err(e),
                }
            },
            ExecuteMsg::SignReceived { listing_id } => {
                match self.sign_received(sender, listing_id) {
                    Ok(transfers) => Ok(ExecuteResponse { listing_id, transfers }),
                    Err(e) => Err(e),
                }
            },
            ExecuteMsg::RequestArbitration { listing_id } => {
                match self.request_arbitration(sender, listing_id) {
                    Ok(()) => {
                        let resp = ExecuteResponse { listing_id, transfers: Vec::new() };
                        proof {
                            assert(resp.transfers.deep_view() =~= Seq::<TransferView>::empty());
                        }
                        Ok(resp)
                    },
                    Err(e) => Err(e),
                }
            },
            ExecuteMsg::Arbitrate { listing_id, funds_recipient } => {
                match self.arbitrate(sender, listing_id, funds_recipient) {
                    Ok(transfers) => Ok(ExecuteResponse { listing_id, transfers }),
                    Err(e) => Err(e),
                }
            },
        }
    }
}

} // verus!
