//! The ingestion gate: validates freshly submitted listings, writes the
//! accepted ones through the store's upsert, and publishes them on the
//! broadcast bus.
//!
//! Publication is unconditional once validation passes — the caller is
//! answered independently of whether any subscriber was listening — and a
//! rejected listing reaches neither the store nor the bus.

use vstd::prelude::*;

use crate::bus::{BroadcastMessage, Bus};
use crate::listing::{Listing, ListingView, RejectReason};
use crate::store::{
    apply_upsert, apply_upsert_all, spec_query_window, ListingStore, StoredRecordView,
    MAX_TIMESTAMP,
};

verus! {

/// The sublist of listings that pass validation, in submission order.
pub open spec fn valid_views(ls: Seq<ListingView>) -> Seq<ListingView>
    decreases ls.len(),
{
    if ls.len() == 0 {
        Seq::empty()
    } else if ls[0].valid() {
        seq![ls[0]] + valid_views(ls.drop_first())
    } else {
        valid_views(ls.drop_first())
    }
}

/// Submits one listing at time `now`.  A valid listing is upserted into
/// the store and then published to the bus as a one-listing batch; an
/// invalid one is rejected with the reason and touches neither.
pub fn submit(
    store: &mut ListingStore,
    bus: &mut Bus,
    listing: Listing,
    now: i64,
) -> (r: Result<(), RejectReason>)
    requires
        old(store).wf(),
        0 <= now <= MAX_TIMESTAMP,
        old(bus)@.len() < usize::MAX,
    ensures
        final(store).wf(),
        final(bus).cap() == old(bus).cap(),
        r is Ok <==> listing@.valid(),
        r == Err::<(), RejectReason>(RejectReason::SecondsTooHigh) <==> !listing@.seconds_ok(),
        r == Err::<(), RejectReason>(RejectReason::WorldTooHigh)
            <==> listing@.seconds_ok() && !listing@.worlds_ok(),
        listing@.valid() ==> {
            &&& final(store)@ == apply_upsert(old(store)@, listing@, now)
            &&& final(bus)@ == old(bus)@.push(seq![listing@])
        },
        !listing@.valid() ==> {
            &&& final(store)@ == old(store)@
            &&& final(bus)@ == old(bus)@
        },
{
    match listing.validate() {
        Err(reason) => Err(reason),
        Ok(()) => {
            let for_bus = listing.duplicate();
            store.upsert(listing, now);
            let mut batch: Vec<Listing> = Vec::new();
            batch.push(for_bus);
            let msg = BroadcastMessage { listings: batch };
            proof {
                assert(msg@ =~= seq![listing@]);
            }
            bus.publish(msg);
            Ok(())
        }
    }
}

/// Submits a batch.  Each listing is validated on its own; the accepted
/// ones are upserted in order and — when there is at least one — published
/// together as a single batch message.  Rejected items are skipped, never
/// retried, and never published.  Returns how many were accepted.
pub fn submit_many(
    store: &mut ListingStore,
    bus: &mut Bus,
    listings: &Vec<Listing>,
    now: i64,
) -> (accepted: usize)
    requires
        old(store).wf(),
        0 <= now <= MAX_TIMESTAMP,
        old(bus)@.len() < usize::MAX,
    ensures
        final(store).wf(),
        final(bus).cap() == old(bus).cap(),
        accepted == valid_views(listings.deep_view()).len(),
        final(store)@ == apply_upsert_all(old(store)@, valid_views(listings.deep_view()), now),
        valid_views(listings.deep_view()).len() > 0 ==> final(bus)@ == old(bus)@.push(
            valid_views(listings.deep_view()),
        ),
        valid_views(listings.deep_view()).len() == 0 ==> final(bus)@ == old(bus)@,
{
    let ghost all = listings.deep_view();
    let mut batch: Vec<Listing> = Vec::new();
    let mut accepted: usize = 0;
    let mut i: usize = 0;
    proof {
        assert(all.skip(0) =~= all);
        assert(batch.deep_view() + valid_views(all) =~= valid_views(all));
    }
    while i < listings.len()
        invariant
            old(store).wf(),
            store.wf(),
            i <= listings.len(),
            all == listings.deep_view(),
            accepted <= i,
            accepted + valid_views(all.skip(i as int)).len() == valid_views(all).len(),
            batch.deep_view() + valid_views(all.skip(i as int)) == valid_views(all),
            apply_upsert_all(store@, valid_views(all.skip(i as int)), now)
                == apply_upsert_all(old(store)@, valid_views(all), now),
            bus == old(bus),
            0 <= now <= MAX_TIMESTAMP,
        decreases listings.len() - i,
    {
        let ghost tail = all.skip(i as int);
        proof {
            assert(tail.drop_first() =~= all.skip(i as int + 1));
            assert(tail[0] == all[i as int]);
        }
        let item = &listings[i];
        if item.validate().is_ok() {
            let ghost batch_pre = batch.deep_view();
            batch.push(item.duplicate());
            store.upsert(item.duplicate(), now);
            accepted = accepted + 1;
            proof {
                assert(valid_views(tail) =~= seq![all[i as int]] + valid_views(
                    all.skip(i as int + 1),
                ));
                assert(valid_views(tail)[0] == all[i as int]);
                assert(valid_views(tail).drop_first() =~= valid_views(all.skip(i as int + 1)));
                assert(batch.deep_view() =~= batch_pre.push(all[i as int]));
                assert(batch.deep_view() + valid_views(all.skip(i as int + 1)) =~= valid_views(
                    all,
                ));
            }
        } else {
            proof {
                assert(valid_views(tail) =~= valid_views(all.skip(i as int + 1)));
            }
        }
        i = i + 1;
    }
    proof {
        assert(all.skip(all.len() as int) =~= Seq::<ListingView>::empty());
        assert(batch.deep_view() =~= valid_views(all));
    }
    if batch.len() > 0 {
        let msg = BroadcastMessage { listings: batch };
        bus.publish(msg);
    }
    accepted
}

/// An accepted listing is visible at once: after `submit` takes a valid,
/// non-private listing at `now`, a window query at the same instant (with
/// any non-negative age bound) returns a record derived from it whose
/// remaining time is the full `seconds_remaining`, hence non-negative.
/// Private listings are stored but deliberately kept out of window
/// queries, so nothing of the kind can hold for them.
pub proof fn lemma_submitted_listing_is_queryable(
    pre: Seq<StoredRecordView>,
    l: ListingView,
    now: i64,
    max_age: i64,
)
    requires
        l.valid(),
        !l.is_private(),
        0 <= max_age,
    ensures
        ({
            let q = spec_query_window(apply_upsert(pre, l, now), now as int, max_age as int);
            exists|k: int|
                {
                    &&& 0 <= k < q.len()
                    &&& (#[trigger] q[k]).listing == l
                    &&& q[k].updated_at == now
                    &&& q[k].time_left == l.seconds_remaining
                    &&& q[k].time_left >= 0
                }
        }),
{
    let key = l.key();
    let post = apply_upsert(pre, l, now);
    crate::store::lemma_find_key(pre, key);
    crate::store::lemma_find_key_after_upsert(pre, l, now);
    let i = find_index(pre, l);
    assert(post[i].listing == l);
    assert(post[i].updated_at == now);
    assert(crate::store::in_window(post[i], now as int, max_age as int));
    crate::store::lemma_query_window_contains(post, now as int, max_age as int, i);
    let q = spec_query_window(post, now as int, max_age as int);
    let e = crate::store::window_entry(post[i], now as int);
    let k = choose|k: int| 0 <= k < q.len() && q[k] == e;
    assert(q[k].listing == l);
}

/// Where the upserted record for `l` stands.
spec fn find_index(pre: Seq<StoredRecordView>, l: ListingView) -> int {
    match crate::store::find_key(pre, l.key()) {
        Some(i) => i,
        None => pre.len() as int,
    }
}

} // verus!
