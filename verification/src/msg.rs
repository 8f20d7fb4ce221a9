//! The action and query messages of the marketplace, and the structured
//! answers the queries return.

use crate::funds::TransferInstruction;
use crate::state::Listing;
use vstd::prelude::*;

verus! {

/// There is nothing to configure at instantiation beyond the caller
/// becoming the administrator.
#[derive(Debug)]
pub struct InstantiateMsg {}

/// One lifecycle action on a listing.
#[derive(Debug)]
pub enum ExecuteMsg {
    CreateListing {
        listing_title: String,
        external_id: String,
        text: String,
        tags: Vec<String>,
        contact: String,
        price: u64,
    },
    EditListing { listing_id: u64, external_id: String, text: String, tags: Vec<String>, price: u64 },
    DeleteListing { listing_id: u64 },
    Purchase { listing_id: u64 },
    CancelPurchase { listing_id: u64 },
    SignShipped { listing_id: u64 },
    SignReceived { listing_id: u64 },
    RequestArbitration { listing_id: u64 },
    Arbitrate { listing_id: u64, funds_recipient: String },
}

/// One read-only query.
#[derive(Debug)]
pub enum QueryMsg {
    AllListings { limit: Option<u32>, start_after: Option<u64> },
    Listing { listing_id: u64 },
    ListingCount {},
    ArbitrationListings { limit: Option<u32>, start_after: Option<u64> },
    SearchListingsByTitle { title: String, limit: Option<u32> },
}

/// A page of listings, descending by id.
#[derive(Debug)]
pub struct AllListingsResponse {
    pub listings: Vec<Listing>,
}

/// A point lookup; `None` when no listing carries the id.
#[derive(Debug)]
pub struct ListingResponse {
    pub listing: Option<Listing>,
}

/// The number of live listings.
#[derive(Debug)]
pub struct ListingCountResponse {
    pub listing_count: u64,
}

/// A page of listings with a pending arbitration request.
#[derive(Debug)]
pub struct ArbitrationListingsResponse {
    pub listings: Vec<Listing>,
}

/// The listings whose title contains the query, case-insensitively.
#[derive(Debug)]
pub struct SearchListingsResponse {
    pub listings: Vec<Listing>,
}

/// Version upkeep takes no input.
#[derive(Debug)]
pub struct MigrateMsg {}

/// The structured answer of the query dispatcher, one variant per query.
#[derive(Debug)]
pub enum QueryAnswer {
    AllListings(AllListingsResponse),
    Listing(ListingResponse),
    ListingCount(ListingCountResponse),
    ArbitrationListings(ArbitrationListingsResponse),
    SearchListings(SearchListingsResponse),
}

/// The structured outcome of a lifecycle transition: the listing it
/// touched and the transfer instructions it emits. The caller's execution
/// environment performs the transfers.
#[derive(Debug)]
pub struct ExecuteResponse {
    pub listing_id: u64,
    pub transfers: Vec<TransferInstruction>,
}

} // verus!
