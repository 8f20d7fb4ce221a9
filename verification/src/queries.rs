//! Read-only projections over the listing store: descending pagination
//! with an exclusive upper bound, the dispute filter, and the
//! case-insensitive title filter.
//!
//! A page walks the live records from the highest id downward, skips
//! everything at or above `start_after`, keeps what the selector admits,
//! and stops after `limit` records.

use crate::state::{Listing, ListingView};
use crate::support::{has_substring, lower_of, lowercase, str_contains};
use vstd::prelude::*;
use vstd::seq_lib::*;

verus! {

/// The default page size when the caller gives none.
pub const DEFAULT_LIMIT: u32 = 10;

/// The largest page size a caller can ask for.
pub const MAX_LIMIT: u32 = 30;

/// The page size actually used: the caller's wish, defaulted and capped.
pub open spec fn effective_limit(limit: Option<u32>) -> int {
    let wished = match limit {
        Some(l) => l as int,
        None => DEFAULT_LIMIT as int,
    };
    if wished > MAX_LIMIT as int {
        MAX_LIMIT as int
    } else {
        wished
    }
}

/// Applies the page-size default and cap.
pub fn clamp_limit(limit: Option<u32>) -> (r: usize)
    ensures
        r as int == effective_limit(limit),
{
    let wished: u32 = match limit {
        Some(l) => l,
        None => DEFAULT_LIMIT,
    };
    let capped: u32 = if wished > MAX_LIMIT {
        MAX_LIMIT
    } else {
        wished
    };
    capped as usize
}

/// Which listings a read-only projection selects.
pub enum Selector {
    /// Every live listing.
    All,
    /// Only listings with a pending arbitration request.
    Disputed,
    /// Only listings whose lowercased title contains the (already
    /// lowercased) needle.
    TitleHas(String),
}

/// Whether the selector picks the listing.
pub open spec fn selector_matches(sel: Selector, l: ListingView) -> bool {
    match sel {
        Selector::All => true,
        Selector::Disputed => l.arbitration_requested,
        Selector::TitleHas(needle) => has_substring(lower_of(l.listing_title), needle@),
    }
}

/// The exclusive pagination bound: with `start_after` given, only listings
/// with a strictly smaller id are visible.
pub open spec fn below_bound(l: ListingView, start_after: Option<u64>) -> bool {
    match start_after {
        None => true,
        Some(b) => l.listing_id < b,
    }
}

/// The record filter of a page.
pub open spec fn page_pred(start_after: Option<u64>, sel: Selector) -> spec_fn(ListingView) -> bool {
    |l: ListingView| below_bound(l, start_after) && selector_matches(sel, l)
}

/// The first `n` elements, or all of them when fewer are there.
pub open spec fn take_at_most(s: Seq<ListingView>, n: int) -> Seq<ListingView> {
    if s.len() <= n {
        s
    } else {
        s.take(n)
    }
}

/// One page: the admitted records in descending id order (the store keeps
/// ascending order, hence the reversal), clipped to the limit.
pub open spec fn page_desc(
    s: Seq<ListingView>,
    start_after: Option<u64>,
    limit: int,
    sel: Selector,
) -> Seq<ListingView> {
    take_at_most(s.reverse().filter(page_pred(start_after, sel)), limit)
}

/// The title filter: the lowercased title contains the lowercased query.
pub open spec fn title_search_pred(query: Seq<char>) -> spec_fn(ListingView) -> bool {
    |l: ListingView| has_substring(lower_of(l.listing_title), lower_of(query))
}

/// The title search: the matching records in descending id order, clipped
/// to the limit.
pub open spec fn search_results(s: Seq<ListingView>, query: Seq<char>, limit: int) -> Seq<
    ListingView,
> {
    take_at_most(s.reverse().filter(title_search_pred(query)), limit)
}

/// Filtering depends only on the pointwise behaviour of the predicate.
pub proof fn lemma_filter_congruence(
    s: Seq<ListingView>,
    p1: spec_fn(ListingView) -> bool,
    p2: spec_fn(ListingView) -> bool,
)
    requires
        forall|l: ListingView| #[trigger] p1(l) == #[trigger] p2(l),
    ensures
        s.filter(p1) == s.filter(p2),
    decreases s.len(),
{
    reveal(Seq::filter);
    if s.len() > 0 {
        lemma_filter_congruence(s.drop_last(), p1, p2);
    }
}

/// Filtering a singleton keeps or drops its element.
proof fn lemma_filter_singleton(l: ListingView, pred: spec_fn(ListingView) -> bool)
    ensures
        seq![l].filter(pred) == if pred(l) {
            seq![l]
        } else {
            Seq::<ListingView>::empty()
        },
{
    reveal_with_fuel(Seq::filter, 2);
    assert(seq![l].drop_last() =~= Seq::<ListingView>::empty());
    assert(seq![l].drop_last().filter(pred) == Seq::<ListingView>::empty().filter(pred));
    assert(Seq::<ListingView>::empty().filter(pred) =~= Seq::<ListingView>::empty());
    assert(seq![l].last() == l);
    assert(Seq::<ListingView>::empty().push(l) =~= seq![l]);
}

/// Whether the page at hand selects the listing.
pub fn page_allows(l: &Listing, start_after: Option<u64>, sel: &Selector) -> (r: bool)
    ensures
        r == page_pred(start_after, *sel)(l@),
{
    let below = match start_after {
        None => true,
        Some(b) => l.listing_id < b,
    };
    if !below {
        return false;
    }
    match sel {
        Selector::All => true,
        Selector::Disputed => l.arbitration_requested,
        Selector::TitleHas(needle) => {
            let lowered = lowercase(l.listing_title.as_str());
            str_contains(lowered.as_str(), needle.as_str())
        },
    }
}

/// Collects one page, walking the records from the back (highest id) to
/// the front.
pub fn collect_desc(
    listings: &Vec<Listing>,
    start_after: Option<u64>,
    limit: usize,
    sel: &Selector,
) -> (r: Vec<Listing>)
    ensures
        r.deep_view() == page_desc(listings.deep_view(), start_after, limit as int, *sel),
{
    let ghost all = listings.deep_view();
    let ghost pred = page_pred(start_after, *sel);
    let mut out: Vec<Listing> = Vec::new();
    let mut idx: usize = listings.len();
    proof {
        reveal(Seq::filter);
        assert(all.subrange(listings@.len() as int, all.len() as int)
            =~= Seq::<ListingView>::empty());
        assert(Seq::<ListingView>::empty().reverse() =~= Seq::<ListingView>::empty());
        assert(Seq::<ListingView>::empty().filter(pred) =~= Seq::<ListingView>::empty());
        assert(out.deep_view() =~= Seq::<ListingView>::empty());
    }
    while idx > 0
        invariant
            idx <= listings@.len(),
            all == listings.deep_view(),
            all.len() == listings@.len(),
            pred == page_pred(start_after, *sel),
            out.deep_view() == take_at_most(
                all.subrange(idx as int, all.len() as int).reverse().filter(pred),
                limit as int,
            ),
            out.deep_view().len() <= limit,
        decreases idx,
    {
        idx = idx - 1;
        let ghost processed = all.subrange(idx + 1, all.len() as int).reverse();
        let ghost kept = processed.filter(pred);
        proof {
            assert(all[idx as int] == listings@[idx as int]@);
            assert(all.subrange(idx as int, all.len() as int).reverse() =~= processed.push(
                all[idx as int],
            ));
            assert(processed.push(all[idx as int]) =~= processed + seq![all[idx as int]]);
            Seq::filter_distributes_over_add(processed, seq![all[idx as int]], pred);
            lemma_filter_singleton(all[idx as int], pred);
        }
        let l = &listings[idx];
        let allowed = page_allows(l, start_after, sel);
        if allowed && out.len() < limit {
            proof {
                // The page is not full, so the clipped filtered sequence is
                // the filtered sequence itself and grows by this record.
                assert(out.deep_view().len() == take_at_most(kept, limit as int).len());
                assert(kept.len() < limit);
                assert(take_at_most(kept, limit as int) == kept);
                assert(take_at_most(kept.push(all[idx as int]), limit as int) == kept.push(
                    all[idx as int],
                ));
                assert(kept + seq![all[idx as int]] =~= kept.push(all[idx as int]));
            }
            let ghost out0 = out.deep_view();
            let ghost outv0 = out@;
            let c = l.clone();
            out.push(c);
            proof {
                assert forall|j: int| 0 <= j < out.deep_view().len() implies out.deep_view()[j]
                    == out0.push(all[idx as int])[j] by {
                    if j < out0.len() {
                        assert(out@[j] == outv0[j]);
                        assert(out0[j] == outv0[j]@);
                    }
                }
                assert(out.deep_view() =~= out0.push(all[idx as int]));
            }
        } else {
            proof {
                if allowed {
                    // The page is full: further admitted records fall off
                    // the clipped end.
                    assert(out.deep_view().len() == limit);
                    assert(kept.len() >= limit);
                    assert(take_at_most(kept + seq![all[idx as int]], limit as int)
                        =~= take_at_most(kept, limit as int));
                } else {
                    assert(kept + Seq::<ListingView>::empty() =~= kept);
                }
            }
        }
    }
    proof {
        assert(all.subrange(0, all.len() as int) =~= all);
    }
    out
}

} // verus!
