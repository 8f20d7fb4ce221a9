use julian::coin_helpers::Coin;
use julian::contract::Marketplace;
use julian::msg::{ExecuteMsg, QueryAnswer, QueryMsg};

const JUNO: &str = "ujuno";
const GATEWAY: &str = "https://gateway.pinata.cloud/ipfs/";
const IPFS_LINK: &str =
    "https://gateway.pinata.cloud/ipfs/QmQSXMeJRyodyVESWVXT8gd7kQhjrV7sguLnsrXSd6YzvT";
const MOCK_TIME: &str = "1571797419.879305533";

fn coin(amount: u128, denom: &str) -> Coin {
    Coin { denom: denom.to_string(), amount }
}

fn setup(instantiator: &str) -> Marketplace {
    Marketplace::new(
        instantiator.to_string(),
        vec![instantiator.to_string()],
        JUNO.to_string(),
        GATEWAY.to_string(),
    )
}

fn camera_listing_msg() -> ExecuteMsg {
    ExecuteMsg::CreateListing {
        listing_title: "Vintage Camera".to_string(),
        external_id: IPFS_LINK.to_string(),
        text: "Selling my vintage camera in excellent condition".to_string(),
        tags: vec![
            "Electronics".to_string(),
            "Camera".to_string(),
            "Vintage".to_string(),
        ],
        contact: "Signal: +1234567890".to_string(),
        price: 100_000_000, // 100 JUNO
    }
}

fn query_listing(m: &Marketplace, listing_id: u64) -> Option<julian::state::Listing> {
    match m.query(QueryMsg::Listing { listing_id }) {
        QueryAnswer::Listing(r) => r.listing,
        _ => panic!("unexpected query answer"),
    }
}

//Test that the marketplace is initialized correctly
#[test]
fn test_instantiate() {
    let m = setup("instantiator");
    assert_eq!(m.config.admin, "instantiator");
}

//Test that a listing can be created and then queried
#[test]
fn test_execute_create_listing_valid() {
    let mut m = setup("instantiator");

    let res = m
        .execute(
            "listing_creator".to_string(),
            vec![],
            MOCK_TIME.to_string(),
            camera_listing_msg(),
        )
        .unwrap();

    // Verify the outcome record
    assert_eq!(res.listing_id, 1);

    // Query the listing to verify it was created correctly
    let listing = query_listing(&m, 1).unwrap();
    assert_eq!(listing.listing_title, "Vintage Camera");
    assert_eq!(listing.seller, "listing_creator");
    assert_eq!(listing.price, 100_000_000);
    assert!(!listing.bought);
    assert!(!listing.shipped);
    assert!(!listing.received);
    assert!(!listing.arbitration_requested);
    assert_eq!(listing.buyer, None);
}

//Create a listing, have a different address purchase it, then query to ensure the listing state changes
#[test]
fn test_purchase_flow() {
    let mut m = setup("instantiator");

    m.execute(
        "listing_creator".to_string(),
        vec![],
        MOCK_TIME.to_string(),
        camera_listing_msg(),
    )
    .unwrap();

    // Purchase listing with different address
    let res = m
        .execute(
            "listing_buyer".to_string(),
            vec![coin(100_000_000, JUNO)],
            MOCK_TIME.to_string(),
            ExecuteMsg::Purchase { listing_id: 1 },
        )
        .unwrap();
    assert_eq!(res.listing_id, 1);

    // Query the listing to verify purchase state
    let listing = query_listing(&m, 1).unwrap();
    assert!(listing.bought);
    assert_eq!(listing.buyer, Some("listing_buyer".to_string()));
}

//Test purchase, sign shipped, and sign received
#[test]
fn test_purchase_sign_shipped_sign_received() {
    let mut m = setup("instantiator");

    m.execute(
        "listing_creator".to_string(),
        vec![],
        MOCK_TIME.to_string(),
        camera_listing_msg(),
    )
    .unwrap();

    //Buyer purchases listing
    m.execute(
        "listing_buyer".to_string(),
        vec![coin(100_000_000, JUNO)],
        MOCK_TIME.to_string(),
        ExecuteMsg::Purchase { listing_id: 1 },
    )
    .unwrap();

    //Seller signs shipped
    m.execute(
        "listing_creator".to_string(),
        vec![],
        MOCK_TIME.to_string(),
        ExecuteMsg::SignShipped { listing_id: 1 },
    )
    .unwrap();

    //Buyer signs received
    m.execute(
        "listing_buyer".to_string(),
        vec![],
        MOCK_TIME.to_string(),
        ExecuteMsg::SignReceived { listing_id: 1 },
    )
    .unwrap();
}

//Test canceling a purchase
#[test]
fn test_cancel_purchase() {
    let mut m = setup("instantiator");

    m.execute(
        "listing_creator".to_string(),
        vec![],
        MOCK_TIME.to_string(),
        camera_listing_msg(),
    )
    .unwrap();

    // Purchase listing with different address
    m.execute(
        "listing_buyer".to_string(),
        vec![coin(100_000_000, JUNO)],
        MOCK_TIME.to_string(),
        ExecuteMsg::Purchase { listing_id: 1 },
    )
    .unwrap();

    //Cancel purchase
    m.execute(
        "listing_buyer".to_string(),
        vec![],
        MOCK_TIME.to_string(),
        ExecuteMsg::CancelPurchase { listing_id: 1 },
    )
    .unwrap();

    //Verify that the purchase was canceled
    let listing = query_listing(&m, 1).unwrap();
    assert!(!listing.bought);
    assert!(!listing.shipped);
    assert!(!listing.received);
    assert!(!listing.arbitration_requested);
    assert_eq!(listing.buyer, None);
}

//Test that a listing can be edited and then queried
#[test]
fn test_execute_edit_post_valid() {
    let mut m = setup("instantiator");

    m.execute(
        "listing_creator".to_string(),
        vec![],
        MOCK_TIME.to_string(),
        camera_listing_msg(),
    )
    .unwrap();

    //Test that the listing can be edited
    let res = m
        .execute(
            "listing_creator".to_string(),
            vec![],
            MOCK_TIME.to_string(),
            ExecuteMsg::EditListing {
                listing_id: 1,
                external_id: IPFS_LINK.to_string(),
                text: "EDITED: Vintage camera in mint condition, includes original case"
                    .to_string(), //Edited text
                tags: vec![
                    "Electronics".to_string(),
                    "Camera".to_string(),
                    "Vintage".to_string(),
                    "Case".to_string(),
                ], //Added case tag
                price: 120_000_000, // Increased price to 120 JUNO
            },
        )
        .unwrap();
    assert_eq!(res.listing_id, 1);

    // Query the listing to verify changes
    let listing = query_listing(&m, 1).unwrap();
    assert_eq!(
        listing.text,
        "EDITED: Vintage camera in mint condition, includes original case"
    );
    assert_eq!(listing.price, 120_000_000);
    assert_eq!(listing.tags.len(), 4);
    assert!(listing.tags.contains(&"Case".to_string()));
    assert!(listing.last_edit_date.is_some());
}

#[test]
fn test_execute_edit_post_invalid() {
    let mut m = setup("instantiator");

    m.execute(
        "listing_creator".to_string(),
        vec![],
        MOCK_TIME.to_string(),
        camera_listing_msg(),
    )
    .unwrap();

    //Test that the listing cannot be edited by someone other than the creator
    let _err = m
        .execute(
            "fake_creator".to_string(),
            vec![],
            MOCK_TIME.to_string(),
            ExecuteMsg::EditListing {
                listing_id: 1,
                external_id: IPFS_LINK.to_string(),
                text: "EDITED: Vintage camera in mint condition, includes original case"
                    .to_string(), //Edited text
                tags: vec![
                    "Electronics".to_string(),
                    "Camera".to_string(),
                    "Vintage".to_string(),
                    "Case".to_string(),
                ], //Added case tag
                price: 120_000_000, // Increased price to 120 JUNO
            },
        )
        .unwrap_err();
}

#[test]
fn test_execute_delete_post_valid() {
    let mut m = setup("instantiator");

    m.execute(
        "listing_creator".to_string(),
        vec![],
        MOCK_TIME.to_string(),
        camera_listing_msg(),
    )
    .unwrap();

    //Test that the creator can delete the listing
    m.execute(
        "listing_creator".to_string(),
        vec![],
        MOCK_TIME.to_string(),
        ExecuteMsg::DeleteListing { listing_id: 1 },
    )
    .unwrap();

    //Verify that the listing was deleted
    assert!(query_listing(&m, 1).is_none());
}

#[test]
fn test_execute_delete_post_invalid() {
    let mut m = setup("instantiator");

    m.execute(
        "listing_creator".to_string(),
        vec![],
        MOCK_TIME.to_string(),
        camera_listing_msg(),
    )
    .unwrap();

    //Test that someone other than the creator cannot delete the listing
    let _err = m
        .execute(
            "fake_creator".to_string(),
            vec![],
            MOCK_TIME.to_string(),
            ExecuteMsg::DeleteListing { listing_id: 1 },
        )
        .unwrap_err();
}

#[test]
fn test_execute_arbitrate_post_valid() {
    let mut m = setup("instantiator");

    m.execute(
        "listing_creator".to_string(),
        vec![],
        MOCK_TIME.to_string(),
        camera_listing_msg(),
    )
    .unwrap();

    //Buyer purchases listing
    m.execute(
        "listing_buyer".to_string(),
        vec![coin(100_000_000, JUNO)],
        MOCK_TIME.to_string(),
        ExecuteMsg::Purchase { listing_id: 1 },
    )
    .unwrap();

    //Seller signs shipped
    m.execute(
        "listing_creator".to_string(),
        vec![],
        MOCK_TIME.to_string(),
        ExecuteMsg::SignShipped { listing_id: 1 },
    )
    .unwrap();

    //Buyer requests arbitration
    m.execute(
        "listing_buyer".to_string(),
        vec![],
        MOCK_TIME.to_string(),
        ExecuteMsg::RequestArbitration { listing_id: 1 },
    )
    .unwrap();

    //Arbiter arbitrates and returns funds to buyer
    m.execute(
        "instantiator".to_string(),
        vec![],
        MOCK_TIME.to_string(),
        ExecuteMsg::Arbitrate {
            listing_id: 1,
            funds_recipient: "listing_buyer".to_string(),
        },
    )
    .unwrap();

    //Verify that the listing was deleted
    assert!(query_listing(&m, 1).is_none());
}

#[test]
fn test_execute_arbitrate_post_invalid() {
    let mut m = setup("instantiator");
    println!("Instantiator address: {}", "instantiator");

    m.execute(
        "listing_creator".to_string(),
        vec![],
        MOCK_TIME.to_string(),
        camera_listing_msg(),
    )
    .unwrap();

    //Buyer purchases listing
    m.execute(
        "listing_buyer".to_string(),
        vec![coin(100_000_000, JUNO)],
        MOCK_TIME.to_string(),
        ExecuteMsg::Purchase { listing_id: 1 },
    )
    .unwrap();

    //Seller signs shipped
    m.execute(
        "listing_creator".to_string(),
        vec![],
        MOCK_TIME.to_string(),
        ExecuteMsg::SignShipped { listing_id: 1 },
    )
    .unwrap();

    //Buyer requests arbitration
    m.execute(
        "listing_buyer".to_string(),
        vec![],
        MOCK_TIME.to_string(),
        ExecuteMsg::RequestArbitration { listing_id: 1 },
    )
    .unwrap();

    //Arbiter arbitrates and attempts to send funds to random address
    let err = m
        .execute(
            "instantiator".to_string(),
            vec![],
            MOCK_TIME.to_string(),
            ExecuteMsg::Arbitrate {
                listing_id: 1,
                funds_recipient: "random_address".to_string(),
            },
        )
        .unwrap_err();
    assert_eq!(
        err.message(),
        "Funds recipient must be the seller or buyer"
    );
}

//Begin query tests
#[test]
fn test_query_all_listings() {
    let mut m = setup("instantiator");

    m.execute(
        "listing_creator".to_string(),
        vec![],
        MOCK_TIME.to_string(),
        camera_listing_msg(),
    )
    .unwrap();

    //Create a second listing
    m.execute(
        "listing_creator".to_string(),
        vec![],
        MOCK_TIME.to_string(),
        ExecuteMsg::CreateListing {
            listing_title: "Vintage Camera 2".to_string(),
            external_id: IPFS_LINK.to_string(),
            text: "Selling my vintage camera in excellent condition".to_string(),
            tags: vec![
                "Electronics".to_string(),
                "Camera".to_string(),
                "Vintage".to_string(),
            ],
            contact: "Signal: +1234567890".to_string(),
            price: 100_000_000, // 100 JUNO
        },
    )
    .unwrap();

    //Query all listings with a pagination bound
    let res = match m.query(QueryMsg::AllListings {
        limit: None,
        start_after: Some(2),
    }) {
        QueryAnswer::AllListings(r) => r,
        _ => panic!("unexpected query answer"),
    };
    //checks descending order
    assert_eq!(res.listings.len(), 1);

    let res = match m.query(QueryMsg::AllListings {
        limit: None,
        start_after: None,
    }) {
        QueryAnswer::AllListings(r) => r,
        _ => panic!("unexpected query answer"),
    };
    println!("{:?}", res);
}

#[test]
fn test_query_listing() {
    let mut m = setup("instantiator");

    m.execute(
        "listing_creator".to_string(),
        vec![],
        MOCK_TIME.to_string(),
        camera_listing_msg(),
    )
    .unwrap();

    //query post
    assert!(query_listing(&m, 1).is_some());

    //query nonexistent post
    assert!(query_listing(&m, 78476).is_none());
}

#[test]
fn test_query_article_count() {
    let mut m = setup("instantiator");

    m.execute(
        "listing_creator".to_string(),
        vec![],
        MOCK_TIME.to_string(),
        camera_listing_msg(),
    )
    .unwrap();

    //query article count
    let _res = match m.query(QueryMsg::ListingCount {}) {
        QueryAnswer::ListingCount(r) => r,
        _ => panic!("unexpected query answer"),
    };
}

#[test]
fn test_query_arbitration_listings() {
    let mut m = setup("instantiator");

    m.execute(
        "listing_creator".to_string(),
        vec![],
        MOCK_TIME.to_string(),
        camera_listing_msg(),
    )
    .unwrap();

    //Buyer purchases listing
    m.execute(
        "listing_buyer".to_string(),
        vec![coin(100_000_000, JUNO)],
        MOCK_TIME.to_string(),
        ExecuteMsg::Purchase { listing_id: 1 },
    )
    .unwrap();

    //Seller signs shipped
    m.execute(
        "listing_creator".to_string(),
        vec![],
        MOCK_TIME.to_string(),
        ExecuteMsg::SignShipped { listing_id: 1 },
    )
    .unwrap();

    //Buyer requests arbitration
    m.execute(
        "listing_buyer".to_string(),
        vec![],
        MOCK_TIME.to_string(),
        ExecuteMsg::RequestArbitration { listing_id: 1 },
    )
    .unwrap();

    //Query arbitration listings
    let res = match m.query(QueryMsg::ArbitrationListings {
        limit: None,
        start_after: None,
    }) {
        QueryAnswer::ArbitrationListings(r) => r,
        _ => panic!("unexpected query answer"),
    };
    assert_eq!(res.listings.len(), 1);
}

#[test]
fn test_query_listings_by_title() {
    let mut m = setup("instantiator");

    // Create first listing with Camera in title
    m.execute(
        "listing_creator".to_string(),
        vec![],
        MOCK_TIME.to_string(),
        camera_listing_msg(),
    )
    .unwrap();

    // Create second listing with "Camera" in title
    m.execute(
        "listing_creator".to_string(),
        vec![],
        MOCK_TIME.to_string(),
        ExecuteMsg::CreateListing {
            listing_title: "Digital Camera".to_string(),
            external_id: IPFS_LINK.to_string(),
            text: "Selling my digital camera".to_string(),
            tags: vec!["Electronics".to_string(), "Camera".to_string()],
            contact: "Signal: +1234567890".to_string(),
            price: 50_000_000,
        },
    )
    .unwrap();

    // Create third listing without Camera in title
    m.execute(
        "listing_creator".to_string(),
        vec![],
        MOCK_TIME.to_string(),
        ExecuteMsg::CreateListing {
            listing_title: "Smartphone".to_string(),
            external_id: IPFS_LINK.to_string(),
            text: "New smartphone for sale".to_string(),
            tags: vec!["Electronics".to_string(), "Phone".to_string()],
            contact: "Signal: +1234567890".to_string(),
            price: 75_000_000,
        },
    )
    .unwrap();

    // Query listings with Camera in title
    let res = match m.query(QueryMsg::SearchListingsByTitle {
        title: "Camera".to_string(),
        limit: None,
    }) {
        QueryAnswer::SearchListings(r) => r,
        _ => panic!("unexpected query answer"),
    };

    // Verify that only listings with "Camera" in title are returned
    assert_eq!(res.listings.len(), 2);
    assert!(res
        .listings
        .iter()
        .all(|listing| listing.listing_title.to_lowercase().contains("camera")));

    // Test case-insensitive search
    let res = match m.query(QueryMsg::SearchListingsByTitle {
        title: "camera".to_string(),
        limit: None,
    }) {
        QueryAnswer::SearchListings(r) => r,
        _ => panic!("unexpected query answer"),
    };
    assert_eq!(res.listings.len(), 2);

    // Test with limit
    let res = match m.query(QueryMsg::SearchListingsByTitle {
        title: "Camera".to_string(),
        limit: Some(1),
    }) {
        QueryAnswer::SearchListings(r) => r,
        _ => panic!("unexpected query answer"),
    };
    assert_eq!(res.listings.len(), 1);
}
