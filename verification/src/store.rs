//! The listing store: a persistent mapping from listing id to listing
//! record, a monotonic id allocator, and a live-listing counter.
//!
//! The store holds no business logic. Records are kept ordered by ascending
//! listing id; the allocator never reuses an id, even across deletions.

use crate::state::{Listing, ListingView};
use vstd::prelude::*;

verus! {

/// The abstraction of the store: the live records in ascending id order,
/// the allocator's high-water mark, and the live-record counter.
pub struct StoreView {
    pub listings: Seq<ListingView>,
    pub last_listing_id: u64,
    pub listing_count: u64,
}

/// Point lookup by id, scanning the record sequence from the front.
pub open spec fn get_by_id(s: Seq<ListingView>, id: u64) -> Option<ListingView>
    decreases s.len(),
{
    if s.len() == 0 {
        None
    } else if s[0].listing_id == id {
        Some(s[0])
    } else {
        get_by_id(s.drop_first(), id)
    }
}

/// Ids strictly ascend along the sequence (so each id occurs at most once).
pub open spec fn ids_ascending(s: Seq<ListingView>) -> bool {
    forall|i: int, j: int|
        #![trigger s[i], s[j]]
        0 <= i < j < s.len() ==> s[i].listing_id < s[j].listing_id
}

/// Every id lies between 1 and the allocator's high-water mark.
pub open spec fn ids_in_range(s: Seq<ListingView>, last: u64) -> bool {
    forall|i: int| 0 <= i < s.len() ==> 1 <= (#[trigger] s[i]).listing_id <= last
}

/// Store well-formedness: ordered unique ids within the allocated range, and
/// the counter equal to the number of live records.
pub open spec fn store_wf(s: StoreView) -> bool {
    &&& ids_ascending(s.listings)
    &&& ids_in_range(s.listings, s.last_listing_id)
    &&& s.listing_count == s.listings.len()
}

/// In an ascending sequence of ids that start at 1 or above, the record at
/// position `i` has id at least `i + 1`.
pub proof fn lemma_id_lower_bound(s: Seq<ListingView>, last: u64, i: int)
    requires
        ids_ascending(s),
        ids_in_range(s, last),
        0 <= i < s.len(),
    ensures
        s[i].listing_id >= i + 1,
    decreases i,
{
    if i > 0 {
        lemma_id_lower_bound(s, last, i - 1);
        assert(s[i - 1].listing_id < s[i].listing_id);
    }
}

/// A well-formed store can hold at most `last_listing_id` records.
pub proof fn lemma_count_bound(s: Seq<ListingView>, last: u64)
    requires
        ids_ascending(s),
        ids_in_range(s, last),
    ensures
        s.len() <= last,
{
    if s.len() > 0 {
        lemma_id_lower_bound(s, last, s.len() - 1);
    }
}

/// Lookup finds the record stored at any position, provided ids ascend.
pub proof fn lemma_get_present(s: Seq<ListingView>, i: int)
    requires
        ids_ascending(s),
        0 <= i < s.len(),
    ensures
        get_by_id(s, s[i].listing_id) == Some(s[i]),
    decreases s.len(),
{
    if i > 0 {
        assert(s[0].listing_id < s[i].listing_id);
        assert(s.drop_first()[i - 1] == s[i]);
        lemma_get_present(s.drop_first(), i - 1);
    }
}

/// Lookup misses exactly when no record carries the id.
pub proof fn lemma_get_absent(s: Seq<ListingView>, id: u64)
    requires
        forall|i: int| 0 <= i < s.len() ==> (#[trigger] s[i]).listing_id != id,
    ensures
        get_by_id(s, id) is None,
    decreases s.len(),
{
    if s.len() > 0 {
        assert forall|i: int| 0 <= i < s.drop_first().len() implies (#[trigger] s.drop_first()[i]).listing_id
            != id by {
            assert(s.drop_first()[i] == s[i + 1]);
        }
        lemma_get_absent(s.drop_first(), id);
    }
}

/// A successful lookup returns a stored record carrying the requested id.
pub proof fn lemma_get_some_position(s: Seq<ListingView>, id: u64)
    requires
        get_by_id(s, id) is Some,
    ensures
        exists|i: int|
            0 <= i < s.len() && #[trigger] s[i] == get_by_id(s, id)->Some_0 && s[i].listing_id
                == id,
    decreases s.len(),
{
    if s.len() > 0 && s[0].listing_id != id {
        lemma_get_some_position(s.drop_first(), id);
        let i = choose|i: int|
            0 <= i < s.drop_first().len() && #[trigger] s.drop_first()[i] == get_by_id(
                s.drop_first(),
                id,
            )->Some_0 && s.drop_first()[i].listing_id == id;
        assert(s[i + 1] == s.drop_first()[i]);
    }
}

/// The position of the record carrying `id`; meaningful only when such a
/// record is live.
pub open spec fn index_of_id(s: Seq<ListingView>, id: u64) -> int {
    choose|i: int| 0 <= i < s.len() && (#[trigger] s[i]).listing_id == id
}

/// With ascending ids the position of an id is unique, so `index_of_id`
/// returns the position of any record known to carry it.
pub proof fn lemma_index_of_id(s: Seq<ListingView>, i: int)
    requires
        ids_ascending(s),
        0 <= i < s.len(),
    ensures
        index_of_id(s, s[i].listing_id) == i,
{
    let id = s[i].listing_id;
    assert(0 <= i < s.len() && s[i].listing_id == id);
    let j = index_of_id(s, id);
    if j < i {
        assert(s[j].listing_id < s[i].listing_id);
    } else if j > i {
        assert(s[i].listing_id < s[j].listing_id);
    }
}

/// With ascending ids, a successful lookup reads exactly the record at
/// `index_of_id`.
pub proof fn lemma_get_at_index(s: Seq<ListingView>, id: u64)
    requires
        ids_ascending(s),
        get_by_id(s, id) is Some,
    ensures
        0 <= index_of_id(s, id) < s.len(),
        s[index_of_id(s, id)] == get_by_id(s, id)->Some_0,
        s[index_of_id(s, id)].listing_id == id,
{
    lemma_get_some_position(s, id);
    let i = choose|i: int|
        0 <= i < s.len() && #[trigger] s[i] == get_by_id(s, id)->Some_0 && s[i].listing_id == id;
    lemma_index_of_id(s, i);
}

/// The listing store. Mutation goes exclusively through the operations
/// below; each preserves well-formedness.
pub struct ListingStore {
    pub listings: Vec<Listing>,
    pub last_listing_id: u64,
    pub listing_count: u64,
}

impl View for ListingStore {
    type V = StoreView;

    open spec fn view(&self) -> StoreView {
        StoreView {
            listings: self.listings.deep_view(),
            last_listing_id: self.last_listing_id,
            listing_count: self.listing_count,
        }
    }
}

/// Appending a record appends its view.
proof fn lemma_deep_view_push(v0: Vec<Listing>, v1: Vec<Listing>, l: Listing)
    requires
        v1@ == v0@.push(l),
    ensures
        v1.deep_view() == v0.deep_view().push(l@),
{
    assert forall|j: int| 0 <= j < v1@.len() implies v1.deep_view()[j] == v0.deep_view().push(
        l@,
    )[j] by {
        if j < v0@.len() {
            assert(v1@[j] == v0@[j]);
        } else {
            assert(v1@[j] == l);
        }
    }
    assert(v1.deep_view() =~= v0.deep_view().push(l@));
}

/// Replacing a record updates its view in place.
proof fn lemma_deep_view_update(v0: Vec<Listing>, v1: Vec<Listing>, i: int, l: Listing)
    requires
        0 <= i < v0@.len(),
        v1@ == v0@.update(i, l),
    ensures
        v1.deep_view() == v0.deep_view().update(i, l@),
{
    assert forall|j: int| 0 <= j < v1@.len() implies v1.deep_view()[j] == v0.deep_view().update(
        i,
        l@,
    )[j] by {
        if j != i {
            assert(v1@[j] == v0@[j]);
        } else {
            assert(v1@[j] == l);
        }
    }
    assert(v1.deep_view() =~= v0.deep_view().update(i, l@));
}

/// Removing a record removes its view.
proof fn lemma_deep_view_remove(v0: Vec<Listing>, v1: Vec<Listing>, i: int)
    requires
        0 <= i < v0@.len(),
        v1@ == v0@.remove(i),
    ensures
        v1.deep_view() == v0.deep_view().remove(i),
{
    assert forall|j: int| 0 <= j < v1@.len() implies v1.deep_view()[j] == v0.deep_view().remove(
        i,
    )[j] by {
        if j < i {
            assert(v1@[j] == v0@[j]);
        } else {
            assert(v1@[j] == v0@[j + 1]);
        }
    }
    assert(v1.deep_view() =~= v0.deep_view().remove(i));
}

impl ListingStore {
    pub open spec fn wf(self) -> bool {
        store_wf(self@)
    }

    /// An empty store: no records, counter zero, allocator at zero.
    pub fn new() -> (r: ListingStore)
        ensures
            r@.listings == Seq::<ListingView>::empty(),
            r@.last_listing_id == 0,
            r@.listing_count == 0,
            r.wf(),
    {
        let r = ListingStore { listings: Vec::new(), last_listing_id: 0, listing_count: 0 };
        proof {
            assert(r@.listings =~= Seq::<ListingView>::empty());
        }
        r
    }

    /// Returns the previous maximum plus one and persists the new maximum.
    /// The allocator strictly increases and never reuses an id.
    pub fn allocate_id(&mut self) -> (r: u64)
        requires
            old(self)@.last_listing_id < u64::MAX,
        ensures
            r == old(self)@.last_listing_id + 1,
            final(self)@ == (StoreView { last_listing_id: r, ..old(self)@ }),
    {
        self.last_listing_id = self.last_listing_id + 1;
        self.last_listing_id
    }

    /// The number of live records.
    pub fn count(&self) -> (r: u64)
        ensures
            r == self@.listing_count,
    {
        self.listing_count
    }

    /// The position of the record carrying `id`, if one is live.
    pub fn find(&self, id: u64) -> (r: Option<usize>)
        ensures
            match r {
                Some(i) => i < self@.listings.len() && self@.listings[i as int].listing_id == id,
                None => forall|j: int|
                    0 <= j < self@.listings.len() ==> (#[trigger] self@.listings[j]).listing_id
                        != id,
            },
    {
        let mut i: usize = 0;
        while i < self.listings.len()
            invariant
                i <= self@.listings.len(),
                forall|j: int| 0 <= j < i ==> (#[trigger] self@.listings[j]).listing_id != id,
            decreases self@.listings.len() - i,
        {
            if self.listings[i].listing_id == id {
                return Some(i);
            }
            i = i + 1;
        }
        None
    }

    /// Point lookup: the live record carrying `id`, if any.
    pub fn get(&self, id: u64) -> (r: Option<&Listing>)
        requires
            self.wf(),
        ensures
            match r {
                Some(l) => get_by_id(self@.listings, id) == Some(l@),
                None => get_by_id(self@.listings, id) is None,
            },
    {
        match self.find(id) {
            Some(i) => {
                proof {
                    lemma_get_present(self@.listings, i as int);
                }
                Some(&self.listings[i])
            },
            None => {
                proof {
                    lemma_get_absent(self@.listings, id);
                }
                None
            },
        }
    }

    /// Persists a record whose id is fresher than every live record's and
    /// within the allocated range; increments the live counter.
    pub fn push_fresh(&mut self, l: Listing)
        requires
            old(self).wf(),
            l@.listing_id <= old(self)@.last_listing_id,
            1 <= l@.listing_id,
            forall|i: int|
                0 <= i < old(self)@.listings.len() ==> (#[trigger] old(
                    self,
                )@.listings[i]).listing_id < l@.listing_id,
        ensures
            final(self)@ == (StoreView {
                listings: old(self)@.listings.push(l@),
                listing_count: (old(self)@.listing_count + 1) as u64,
                ..old(self)@
            }),
            final(self).wf(),
    {
        let ghost v0 = self.listings;
        let ghost new_seq = self@.listings.push(l@);
        proof {
            assert forall|i: int| 0 <= i < new_seq.len() implies 1 <= (#[trigger] new_seq[i]).listing_id
                <= self@.last_listing_id by {
                if i < self@.listings.len() {
                    assert(new_seq[i] == self@.listings[i]);
                }
            }
            assert(ids_ascending(new_seq));
            assert(ids_in_range(new_seq, self@.last_listing_id));
            lemma_count_bound(new_seq, self@.last_listing_id);
        }
        self.listings.push(l);
        proof {
            lemma_deep_view_push(v0, self.listings, l);
        }
        self.listing_count = self.listing_count + 1;
    }

    /// Replaces the record at a live position with one carrying the same id.
    pub fn replace_at(&mut self, i: usize, l: Listing)
        requires
            old(self).wf(),
            i < old(self)@.listings.len(),
            l@.listing_id == old(self)@.listings[i as int].listing_id,
        ensures
            final(self)@ == (StoreView {
                listings: old(self)@.listings.update(i as int, l@),
                ..old(self)@
            }),
            final(self).wf(),
    {
        let ghost v0 = self.listings;
        self.listings.set(i, l);
        proof {
            lemma_deep_view_update(v0, self.listings, i as int, l);
            assert(ids_ascending(self@.listings));
            assert(ids_in_range(self@.listings, self@.last_listing_id));
        }
    }

    /// Removes the record at a live position and decrements the counter.
    pub fn remove_at(&mut self, i: usize)
        requires
            old(self).wf(),
            i < old(self)@.listings.len(),
        ensures
            final(self)@ == (StoreView {
                listings: old(self)@.listings.remove(i as int),
                listing_count: (old(self)@.listing_count - 1) as u64,
                ..old(self)@
            }),
            final(self).wf(),
    {
        let ghost v0 = self.listings;
        self.listings.remove(i);
        proof {
            lemma_deep_view_remove(v0, self.listings, i as int);
            let s = old(self)@.listings.remove(i as int);
            assert forall|p: int, q: int|
                #![trigger s[p], s[q]]
                0 <= p < q < s.len() implies s[p].listing_id < s[q].listing_id by {
                let p0: int = if p < i { p } else { p + 1 };
                let q0: int = if q < i { q } else { q + 1 };
                assert(s[p] == old(self)@.listings[p0]);
                assert(s[q] == old(self)@.listings[q0]);
            }
            assert forall|p: int| 0 <= p < s.len() implies 1 <= (#[trigger] s[p]).listing_id
                <= self@.last_listing_id by {
                let p0: int = if p < i { p } else { p + 1 };
                assert(s[p] == old(self)@.listings[p0]);
            }
        }
        self.listing_count = self.listing_count - 1;
    }
}

} // verus!
