//! The library's laws: lifecycle properties proved once and for all over
//! the same step functions and views that the executable methods
//! implement.

use crate::error::ContractError;
use crate::funds::{fee_of, lemma_fee_bounds, seller_share, settlement_transfers};
use crate::state::{created_listing, flags_ok, shipped_listing, ListingView};
use crate::store::{
    get_by_id, ids_ascending, index_of_id, lemma_get_at_index, lemma_get_present,
    lemma_get_some_position, lemma_index_of_id,
};
use crate::transitions::{create_step, market_wf, ship_step, MarketView};
use vstd::prelude::*;

verus! {

/// Invariant: a live listing with a pending arbitration request is always
/// shipped and purchased.
pub proof fn lemma_arbitration_implies_shipped_and_purchased(m: MarketView, listing_id: u64)
    requires
        market_wf(m),
        get_by_id(m.listings, listing_id) is Some,
    ensures
        ({
            let l = get_by_id(m.listings, listing_id)->Some_0;
            l.arbitration_requested ==> l.shipped && l.bought
        }),
{
    lemma_get_some_position(m.listings, listing_id);
    let i = choose|i: int|
        0 <= i < m.listings.len() && #[trigger] m.listings[i] == get_by_id(
            m.listings,
            listing_id,
        )->Some_0 && m.listings[i].listing_id == listing_id;
    assert(flags_ok(m.listings[i]));
}

/// The ids carried by the records of a sequence.
pub open spec fn seq_ids(s: Seq<ListingView>) -> Set<u64> {
    Set::new(|id: u64| exists|i: int| 0 <= i < s.len() && (#[trigger] s[i]).listing_id == id)
}

/// The ids on which a point lookup succeeds.
pub open spec fn live_ids(m: MarketView) -> Set<u64> {
    Set::new(|id: u64| get_by_id(m.listings, id) is Some)
}

/// With ascending ids, a sequence of records carries exactly as many
/// distinct ids as it has records.
proof fn lemma_seq_ids_card(s: Seq<ListingView>)
    requires
        ids_ascending(s),
    ensures
        seq_ids(s).finite(),
        seq_ids(s).len() == s.len(),
    decreases s.len(),
{
    if s.len() == 0 {
        assert(seq_ids(s) =~= Set::<u64>::empty());
    } else {
        let s0 = s.drop_last();
        let last = s.last();
        assert forall|p: int, q: int|
            #![trigger s0[p], s0[q]]
            0 <= p < q < s0.len() implies s0[p].listing_id < s0[q].listing_id by {
            assert(s0[p] == s[p] && s0[q] == s[q]);
        }
        lemma_seq_ids_card(s0);
        assert(!seq_ids(s0).contains(last.listing_id)) by {
            if seq_ids(s0).contains(last.listing_id) {
                let i = choose|i: int|
                    0 <= i < s0.len() && (#[trigger] s0[i]).listing_id == last.listing_id;
                assert(s[i] == s0[i]);
                assert(s[i].listing_id < s[s.len() - 1].listing_id);
            }
        }
        assert forall|id: u64| seq_ids(s).contains(id) <==> seq_ids(s0).insert(
            last.listing_id,
        ).contains(id) by {
            if seq_ids(s).contains(id) {
                let i = choose|i: int| 0 <= i < s.len() && (#[trigger] s[i]).listing_id == id;
                if i < s0.len() {
                    assert(s0[i] == s[i]);
                    assert(seq_ids(s0).contains(id));
                } else {
                    assert(id == last.listing_id);
                }
            }
            if seq_ids(s0).contains(id) {
                let i = choose|i: int| 0 <= i < s0.len() && (#[trigger] s0[i]).listing_id == id;
                assert(s[i] == s0[i]);
                assert(seq_ids(s).contains(id));
            }
            if id == last.listing_id {
                assert((#[trigger] s[s.len() - 1]).listing_id == id);
                assert(seq_ids(s).contains(id));
            }
        }
        assert(seq_ids(s) =~= seq_ids(s0).insert(last.listing_id));
    }
}

/// Invariant: the live counter always equals the number of ids on which a
/// point lookup succeeds.
pub proof fn lemma_count_matches_live_ids(m: MarketView)
    requires
        market_wf(m),
    ensures
        live_ids(m).finite(),
        live_ids(m).len() == m.listing_count,
{
    assert forall|id: u64| live_ids(m).contains(id) <==> seq_ids(m.listings).contains(id) by {
        if get_by_id(m.listings, id) is Some {
            lemma_get_some_position(m.listings, id);
        }
        if seq_ids(m.listings).contains(id) {
            let i = choose|i: int|
                0 <= i < m.listings.len() && (#[trigger] m.listings[i]).listing_id == id;
            lemma_get_present(m.listings, i);
        }
    }
    assert(live_ids(m) =~= seq_ids(m.listings));
    lemma_seq_ids_card(m.listings);
}

/// Idempotence: a second `sign_shipped` from the same caller succeeds and
/// leaves the marketplace exactly as the first call left it. Neither call
/// emits a transfer (the step yields none).
pub proof fn lemma_sign_shipped_idempotent(
    m: MarketView,
    m1: MarketView,
    sender: Seq<char>,
    listing_id: u64,
)
    requires
        market_wf(m),
        ship_step(m, sender, listing_id) == Ok::<MarketView, ContractError>(m1),
    ensures
        ship_step(m1, sender, listing_id) == Ok::<MarketView, ContractError>(m1),
{
    let s = m.listings;
    let l = get_by_id(s, listing_id)->Some_0;
    lemma_get_at_index(s, listing_id);
    let i = index_of_id(s, listing_id);
    let nl = shipped_listing(l);
    let s1 = s.update(i, nl);
    assert forall|p: int, q: int|
        #![trigger s1[p], s1[q]]
        0 <= p < q < s1.len() implies s1[p].listing_id < s1[q].listing_id by {
        assert(s[p].listing_id < s[q].listing_id);
    }
    lemma_get_present(s1, i);
    lemma_index_of_id(s1, i);
    assert(get_by_id(s1, listing_id) == Some(nl));
    assert(shipped_listing(nl) == nl);
    assert(s1.update(i, nl) =~= s1);
    assert(MarketView { listings: s1.update(i, nl), ..m1 } == m1);
}

/// Conservation: on settlement of price `P` the seller's and the
/// administrator's amounts add up to exactly `P`, the seller receiving
/// `P` less the five-percent floor fee.
pub proof fn lemma_settlement_conservation(
    price: u64,
    seller: Seq<char>,
    admin: Seq<char>,
    denom: Seq<char>,
)
    ensures
        seller_share(price) + fee_of(price) == price,
        seller_share(price) == price - price * 5 / 100,
        settlement_transfers(price, seller, admin, denom)[0].amount + settlement_transfers(
            price,
            seller,
            admin,
            denom,
        )[1].amount == price,
{
    lemma_fee_bounds(price);
}

/// Round trip: after a successful `create`, looking the returned id up
/// finds a listing carrying exactly the given fields, with every
/// lifecycle flag false and no buyer.
pub proof fn lemma_create_then_get(
    m: MarketView,
    sender: Seq<char>,
    listing_title: Seq<char>,
    external_id: Seq<char>,
    text: Seq<char>,
    tags: Seq<Seq<char>>,
    contact: Seq<char>,
    price: u64,
    created_at: Seq<char>,
    m1: MarketView,
    id: u64,
)
    requires
        market_wf(m),
        m.last_listing_id < u64::MAX,
        create_step(m, sender, listing_title, external_id, text, tags, contact, price, created_at)
            == Ok::<(MarketView, u64), ContractError>((m1, id)),
    ensures
        id == m.last_listing_id + 1,
        get_by_id(m1.listings, id) == Some(
            created_listing(
                id,
                listing_title,
                external_id,
                text,
                tags,
                sender,
                contact,
                price,
                created_at,
            ),
        ),
{
    let l = created_listing(
        id,
        listing_title,
        external_id,
        text,
        tags,
        sender,
        contact,
        price,
        created_at,
    );
    let s1 = m.listings.push(l);
    assert forall|p: int, q: int|
        #![trigger s1[p], s1[q]]
        0 <= p < q < s1.len() implies s1[p].listing_id < s1[q].listing_id by {
        if q < m.listings.len() {
            assert(s1[p] == m.listings[p] && s1[q] == m.listings[q]);
        } else {
            assert(s1[p] == m.listings[p]);
            assert(m.listings[p].listing_id <= m.last_listing_id);
        }
    }
    lemma_get_present(s1, s1.len() - 1);
}

} // verus!
