//! In-memory model of the listing store: one timestamped record per
//! listing key, written through an idempotent upsert and read through a
//! bounded time-window query.
//!
//! The durable collaborator behind the real service promises exactly the
//! semantics stated here (atomic per-key upsert that preserves the first
//! `created_at`, and a window query that derives remaining time); this
//! module makes those semantics precise and proves the code against them.

use vstd::prelude::*;

use crate::listing::{Listing, ListingKey, ListingView};

verus! {

/// Upper bound on every timestamp the store handles, in unix seconds.
/// Keeps the derived-time arithmetic far away from `i64` overflow.
pub const MAX_TIMESTAMP: i64 = 0x100_0000_0000;

/// Width of the bins that `updated_minute` truncates into: five minutes.
pub const UPDATED_MINUTE_BIN: i64 = 300;

/// A listing wrapped with its write timestamps.  `created_at` is set once,
/// on the first insert for the key; `updated_at` moves on every accepted
/// resubmission.
#[derive(Clone, PartialEq, Eq, Debug)]
pub struct StoredRecord {
    pub listing: Listing,
    pub created_at: i64,
    pub updated_at: i64,
}

/// Mathematical image of a [`StoredRecord`].
pub struct StoredRecordView {
    pub listing: ListingView,
    pub created_at: i64,
    pub updated_at: i64,
}

impl View for StoredRecord {
    type V = StoredRecordView;

    open spec fn view(&self) -> StoredRecordView {
        StoredRecordView { listing: self.listing@, created_at: self.created_at, updated_at: self.updated_at }
    }
}

impl DeepView for StoredRecord {
    type V = StoredRecordView;

    open spec fn deep_view(&self) -> StoredRecordView {
        self@
    }
}

impl StoredRecordView {
    /// Timestamps lie in the range the store accepts.
    pub open spec fn wf(self) -> bool {
        &&& 0 <= self.created_at <= MAX_TIMESTAMP
        &&& 0 <= self.updated_at <= MAX_TIMESTAMP
    }
}

/// A record as a window query returns it, annotated with the derived
/// remaining time and the five-minute bin of its last update.
#[derive(Clone, PartialEq, Eq, Debug)]
pub struct QueriedListing {
    pub listing: Listing,
    pub created_at: i64,
    pub updated_at: i64,
    pub time_left: i64,
    pub updated_minute: i64,
}

/// Mathematical image of a [`QueriedListing`].
pub struct QueriedListingView {
    pub listing: ListingView,
    pub created_at: i64,
    pub updated_at: i64,
    pub time_left: int,
    pub updated_minute: int,
}

impl View for QueriedListing {
    type V = QueriedListingView;

    open spec fn view(&self) -> QueriedListingView {
        QueriedListingView {
            listing: self.listing@,
            created_at: self.created_at,
            updated_at: self.updated_at,
            time_left: self.time_left as int,
            updated_minute: self.updated_minute as int,
        }
    }
}

impl DeepView for QueriedListing {
    type V = QueriedListingView;

    open spec fn deep_view(&self) -> QueriedListingView {
        self@
    }
}

impl QueriedListing {
    /// A copy whose mathematical image equals this record's.
    pub fn duplicate(&self) -> (r: QueriedListing)
        ensures
            r@ == self@,
    {
        QueriedListing {
            listing: self.listing.duplicate(),
            created_at: self.created_at,
            updated_at: self.updated_at,
            time_left: self.time_left,
            updated_minute: self.updated_minute,
        }
    }
}

/// Index of the record holding `key`, if any.
pub open spec fn find_key(records: Seq<StoredRecordView>, key: ListingKey) -> Option<int>
    decreases records.len(),
{
    if records.len() == 0 {
        None
    } else if records[0].listing.key() == key {
        Some(0)
    } else {
        match find_key(records.drop_first(), key) {
            Some(i) => Some(i + 1),
            None => None,
        }
    }
}

/// `find_key` returns an index in range that holds `key`, or `None` when
/// no record holds it.
pub proof fn lemma_find_key(records: Seq<StoredRecordView>, key: ListingKey)
    ensures
        match find_key(records, key) {
            Some(i) => 0 <= i < records.len() && records[i].listing.key() == key,
            None => forall|i: int| 0 <= i < records.len() ==> records[i].listing.key() != key,
        },
    decreases records.len(),
{
    if records.len() > 0 && records[0].listing.key() != key {
        let rest = records.drop_first();
        lemma_find_key(rest, key);
        match find_key(rest, key) {
            Some(i) => {
                assert(records[i + 1] == rest[i]);
            }
            None => {
                assert forall|i: int| 0 <= i < records.len() implies records[i].listing.key()
                    != key by {
                    if i > 0 {
                        assert(records[i] == rest[i - 1]);
                    }
                };
            }
        }
    }
}

/// The store's contents after one upsert of `l` at time `now`: a record
/// already holding the key keeps its place and its `created_at`; a fresh
/// key is appended with both timestamps set to `now`.
pub open spec fn apply_upsert(
    pre: Seq<StoredRecordView>,
    l: ListingView,
    now: i64,
) -> Seq<StoredRecordView> {
    match find_key(pre, l.key()) {
        Some(i) => pre.update(
            i,
            StoredRecordView { listing: l, created_at: pre[i].created_at, updated_at: now },
        ),
        None => pre.push(StoredRecordView { listing: l, created_at: now, updated_at: now }),
    }
}

/// The store's contents after upserting each listing of `ls` in order,
/// all at time `now`.
pub open spec fn apply_upsert_all(
    pre: Seq<StoredRecordView>,
    ls: Seq<ListingView>,
    now: i64,
) -> Seq<StoredRecordView>
    decreases ls.len(),
{
    if ls.len() == 0 {
        pre
    } else {
        apply_upsert_all(apply_upsert(pre, ls[0], now), ls.drop_first(), now)
    }
}

/// Whether a window query at time `now` with age bound `max_age` returns
/// this record: updated recently enough, not private, and its derived
/// remaining time has not run out.
pub open spec fn in_window(r: StoredRecordView, now: int, max_age: int) -> bool {
    &&& r.updated_at >= now - max_age
    &&& !r.listing.is_private()
    &&& r.listing.seconds_remaining + r.updated_at - now >= 0
}

/// The annotation a window query at `now` puts on a record.
pub open spec fn window_entry(r: StoredRecordView, now: int) -> QueriedListingView {
    QueriedListingView {
        listing: r.listing,
        created_at: r.created_at,
        updated_at: r.updated_at,
        time_left: r.listing.seconds_remaining + r.updated_at - now,
        updated_minute: r.updated_at - r.updated_at % UPDATED_MINUTE_BIN,
    }
}

/// Everything a window query returns, in store order.
pub open spec fn spec_query_window(
    records: Seq<StoredRecordView>,
    now: int,
    max_age: int,
) -> Seq<QueriedListingView>
    decreases records.len(),
{
    if records.len() == 0 {
        Seq::empty()
    } else {
        let rest = spec_query_window(records.drop_first(), now, max_age);
        if in_window(records[0], now, max_age) {
            seq![window_entry(records[0], now)] + rest
        } else {
            rest
        }
    }
}

/// The keyed store itself.  The vector order is the insertion order; the
/// well-formedness predicate keeps the key triple unique across it.
pub struct ListingStore {
    records: Vec<StoredRecord>,
}

impl View for ListingStore {
    type V = Seq<StoredRecordView>;

    closed spec fn view(&self) -> Seq<StoredRecordView> {
        self.records.deep_view()
    }
}

impl ListingStore {
    /// No two records share a key, and every timestamp is in range.
    pub open spec fn wf(self) -> bool {
        &&& forall|i: int, j: int|
            0 <= i < j < self@.len() ==> self@[i].listing.key() != self@[j].listing.key()
        &&& forall|i: int| 0 <= i < self@.len() ==> (#[trigger] self@[i]).wf()
    }

    /// An empty store.
    pub fn new() -> (s: ListingStore)
        ensures
            s@ == Seq::<StoredRecordView>::empty(),
            s.wf(),
    {
        let s = ListingStore { records: Vec::new() };
        proof {
            assert(s@ =~= Seq::<StoredRecordView>::empty());
        }
        s
    }

    /// How many records the store holds.
    pub fn len(&self) -> (n: usize)
        ensures
            n == self@.len(),
    {
        self.records.len()
    }

    /// The record at position `i`, in insertion order.
    pub fn record_at(&self, i: usize) -> (r: &StoredRecord)
        requires
            i < self@.len(),
        ensures
            r@ == self@[i as int],
    {
        &self.records[i]
    }

    /// Index of the record holding `key`, if any.
    fn find(&self, key: ListingKey) -> (r: Option<usize>)
        ensures
            match r {
                Some(i) => find_key(self@, key) == Some(i as int),
                None => find_key(self@, key) is None,
            },
    {
        let ghost all = self@;
        let mut i: usize = 0;
        while i < self.records.len()
            invariant
                i <= self@.len(),
                all == self@,
                forall|j: int| 0 <= j < i ==> self@[j].listing.key() != key,
            decreases self@.len() - i,
        {
            let k = self.records[i].listing.key();
            if k.id == key.id
                && k.last_server_restart == key.last_server_restart
                && k.created_world == key.created_world
            {
                proof {
                    lemma_find_key_prefix(self@, key, i as int);
                }
                return Some(i);
            }
            i = i + 1;
        }
        proof {
            lemma_find_key(self@, key);
            if find_key(self@, key) is Some {
                let j = find_key(self@, key)->0;
                assert(self@[j].listing.key() == key);
            }
        }
        None
    }

    /// Inserts the listing when its key is absent, else replaces the
    /// payload and refreshes `updated_at`, leaving `created_at` as the
    /// first insert wrote it.  No other record moves or changes.
    pub fn upsert(&mut self, listing: Listing, now: i64)
        requires
            old(self).wf(),
            0 <= now <= MAX_TIMESTAMP,
        ensures
            final(self).wf(),
            final(self)@ == apply_upsert(old(self)@, listing@, now),
    {
        proof {
            lemma_find_key(old(self)@, listing@.key());
        }
        let key = listing.key();
        match self.find(key) {
            Some(i) => {
                let created_at = self.records[i].created_at;
                self.records.set(
                    i,
                    StoredRecord { listing, created_at, updated_at: now },
                );
                proof {
                    assert(final(self)@ =~= old(self)@.update(
                        i as int,
                        StoredRecordView {
                            listing: listing@,
                            created_at: old(self)@[i as int].created_at,
                            updated_at: now,
                        },
                    ));
                }
            }
            None => {
                self.records.push(StoredRecord { listing, created_at: now, updated_at: now });
                proof {
                    assert(final(self)@ =~= old(self)@.push(
                        StoredRecordView { listing: listing@, created_at: now, updated_at: now },
                    ));
                }
            }
        }
    }

    /// Returns the records updated within `max_age` of `now`, leaving out
    /// private listings and records whose derived remaining time
    /// `seconds_remaining - (now - updated_at)` has gone negative; each
    /// result carries that derived time and the five-minute bin of its
    /// last update.
    pub fn query_window(&self, now: i64, max_age: i64) -> (out: Vec<QueriedListing>)
        requires
            self.wf(),
            0 <= now <= MAX_TIMESTAMP,
            0 <= max_age,
        ensures
            out.deep_view() == spec_query_window(self@, now as int, max_age as int),
    {
        let mut out: Vec<QueriedListing> = Vec::new();
        let mut i: usize = 0;
        proof {
            assert(self@.skip(0) =~= self@);
            assert(out.deep_view() + spec_query_window(self@, now as int, max_age as int)
                =~= spec_query_window(self@, now as int, max_age as int));
        }
        while i < self.records.len()
            invariant
                self.wf(),
                0 <= now <= MAX_TIMESTAMP,
                0 <= max_age,
                i <= self@.len(),
                out.deep_view() + spec_query_window(self@.skip(i as int), now as int, max_age as int)
                    == spec_query_window(self@, now as int, max_age as int),
            decreases self@.len() - i,
        {
            let ghost tail = self@.skip(i as int);
            proof {
                assert(tail.drop_first() =~= self@.skip(i as int + 1));
                assert(tail[0] == self@[i as int]);
            }
            let r = &self.records[i];
            let in_win = r.updated_at >= now - max_age
                && !r.listing.is_private()
                && r.listing.seconds_remaining as i64 + r.updated_at - now >= 0;
            if in_win {
                let entry = QueriedListing {
                    listing: r.listing.duplicate(),
                    created_at: r.created_at,
                    updated_at: r.updated_at,
                    time_left: r.listing.seconds_remaining as i64 + r.updated_at - now,
                    updated_minute: r.updated_at - r.updated_at % UPDATED_MINUTE_BIN,
                };
                out.push(entry);
            }
            proof {
                assert(out.deep_view() + spec_query_window(self@.skip(i as int + 1), now as int, max_age as int)
                    =~= spec_query_window(self@, now as int, max_age as int));
            }
            i = i + 1;
        }
        proof {
            assert(self@.skip(self@.len() as int) =~= Seq::<StoredRecordView>::empty());
            assert(out.deep_view() =~= spec_query_window(self@, now as int, max_age as int));
        }
        out
    }
}

/// The window annotation for one record read back from the durable
/// collaborator: the record as a query at `now` with age bound `max_age`
/// would return it, or nothing when the query would leave it out.
pub fn windowed_record(
    listing: Listing,
    created_at: i64,
    updated_at: i64,
    now: i64,
    max_age: i64,
) -> (r: Option<QueriedListing>)
    requires
        0 <= now <= MAX_TIMESTAMP,
        0 <= updated_at <= MAX_TIMESTAMP,
        0 <= created_at <= MAX_TIMESTAMP,
        0 <= max_age,
    ensures
        ({
            let rec = StoredRecordView { listing: listing@, created_at, updated_at };
            &&& r is Some <==> in_window(rec, now as int, max_age as int)
            &&& r matches Some(q) ==> q@ == window_entry(rec, now as int)
        }),
{
    if updated_at >= now - max_age && !listing.is_private()
        && listing.seconds_remaining as i64 + updated_at - now >= 0 {
        Some(
            QueriedListing {
                time_left: listing.seconds_remaining as i64 + updated_at - now,
                updated_minute: updated_at - updated_at % UPDATED_MINUTE_BIN,
                listing,
                created_at,
                updated_at,
            },
        )
    } else {
        None
    }
}

/// When the first `i` records miss `key` and record `i` holds it,
/// `find_key` lands on `i`.
proof fn lemma_find_key_prefix(records: Seq<StoredRecordView>, key: ListingKey, i: int)
    requires
        0 <= i < records.len(),
        records[i].listing.key() == key,
        forall|j: int| 0 <= j < i ==> records[j].listing.key() != key,
    ensures
        find_key(records, key) == Some(i),
    decreases i,
{
    if i > 0 {
        lemma_find_key_prefix(records.drop_first(), key, i - 1);
    }
}

/// `find_key` lands on the first record holding the key: everything
/// before its result misses it.
proof fn lemma_find_key_first(records: Seq<StoredRecordView>, key: ListingKey)
    ensures
        match find_key(records, key) {
            Some(i) => forall|j: int| 0 <= j < i ==> records[j].listing.key() != key,
            None => true,
        },
    decreases records.len(),
{
    if records.len() > 0 && records[0].listing.key() != key {
        let rest = records.drop_first();
        lemma_find_key(rest, key);
        lemma_find_key_first(rest, key);
        if let Some(i) = find_key(rest, key) {
            assert forall|j: int| 0 <= j < i + 1 implies records[j].listing.key() != key by {
                if j > 0 {
                    assert(records[j] == rest[j - 1]);
                }
            };
        }
    }
}

/// After an upsert of `l`, `find_key` on `l`'s key lands on the updated
/// record: the old index when the key was present, else the appended
/// position.
pub proof fn lemma_find_key_after_upsert(pre: Seq<StoredRecordView>, l: ListingView, now: i64)
    ensures
        find_key(apply_upsert(pre, l, now), l.key()) == match find_key(pre, l.key()) {
            Some(i) => Some(i),
            None => Some(pre.len() as int),
        },
{
    let key = l.key();
    let post = apply_upsert(pre, l, now);
    lemma_find_key(pre, key);
    lemma_find_key_first(pre, key);
    match find_key(pre, key) {
        Some(i) => {
            assert(post[i].listing.key() == key);
            assert(forall|j: int| 0 <= j < i ==> post[j] == pre[j]);
            lemma_find_key_prefix(post, key, i);
        }
        None => {
            assert(post[pre.len() as int].listing.key() == key);
            assert(forall|j: int| 0 <= j < pre.len() ==> post[j] == pre[j]);
            lemma_find_key_prefix(post, key, pre.len() as int);
        }
    }
}

/// Upserting twice with the same key leaves one record for it whose
/// `created_at` is what the first upsert found or set, while `updated_at`
/// and the payload come from the second.
pub proof fn lemma_upsert_twice_preserves_created_at(
    pre: Seq<StoredRecordView>,
    l1: ListingView,
    l2: ListingView,
    t1: i64,
    t2: i64,
)
    requires
        l1.key() == l2.key(),
    ensures
        ({
            let mid = apply_upsert(pre, l1, t1);
            let post = apply_upsert(mid, l2, t2);
            let i = find_key(mid, l1.key())->0;
            &&& find_key(mid, l1.key()) is Some
            &&& find_key(post, l2.key()) == find_key(mid, l1.key())
            &&& 0 <= i < post.len()
            &&& post[i].created_at == mid[i].created_at
            &&& post[i].updated_at == t2
            &&& post[i].listing == l2
            &&& (find_key(pre, l1.key()) is None ==> mid[i].created_at == t1)
            &&& (find_key(pre, l1.key()) matches Some(j) ==> mid[i].created_at == pre[j].created_at)
        }),
{
    let key = l1.key();
    let mid = apply_upsert(pre, l1, t1);
    lemma_find_key(pre, key);
    lemma_find_key_after_upsert(pre, l1, t1);
    lemma_find_key(mid, key);
    lemma_find_key_after_upsert(mid, l2, t2);
}

/// Every record inside the window shows up in the query's result, carrying
/// its derived annotation.
pub proof fn lemma_query_window_contains(
    records: Seq<StoredRecordView>,
    now: int,
    max_age: int,
    i: int,
)
    requires
        0 <= i < records.len(),
        in_window(records[i], now, max_age),
    ensures
        spec_query_window(records, now, max_age).contains(window_entry(records[i], now)),
    decreases records.len(),
{
    let q = spec_query_window(records, now, max_age);
    let rest = spec_query_window(records.drop_first(), now, max_age);
    if i == 0 {
        assert(q[0] == window_entry(records[0], now));
    } else {
        assert(records.drop_first()[i - 1] == records[i]);
        lemma_query_window_contains(records.drop_first(), now, max_age, i - 1);
        let e = window_entry(records[i], now);
        let k = choose|k: int| 0 <= k < rest.len() && rest[k] == e;
        if in_window(records[0], now, max_age) {
            assert(q[k + 1] == e);
        } else {
            assert(q[k] == e);
        }
    }
}

} // verus!
