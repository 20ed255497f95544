//! The order of the listings page: freshest five-minute update bin
//! first; inside a bin, higher category first; inside those, the least
//! time left first.  Records that tie on all three keys keep their
//! store order — the sort is stable.

use vstd::prelude::*;
use vstd::seq_lib::group_seq_properties;

use crate::store::{QueriedListing, QueriedListingView};

verus! {

/// `a` must stand strictly before `b` on the page.
pub open spec fn page_before(a: QueriedListingView, b: QueriedListingView) -> bool {
    ||| a.updated_minute > b.updated_minute
    ||| (a.updated_minute == b.updated_minute && a.listing.category > b.listing.category)
    ||| (a.updated_minute == b.updated_minute && a.listing.category == b.listing.category
        && a.time_left < b.time_left)
}

/// No record stands after one it must precede.
pub open spec fn page_sorted(s: Seq<QueriedListingView>) -> bool {
    forall|i: int, j: int| 0 <= i < j < s.len() ==> !page_before(s[j], s[i])
}

/// `x` placed into `s` at its stable position: after every record it
/// does not have to precede, before the first it does.
pub open spec fn page_insert(
    s: Seq<QueriedListingView>,
    x: QueriedListingView,
) -> Seq<QueriedListingView>
    decreases s.len(),
{
    if s.len() == 0 {
        seq![x]
    } else if page_before(x, s[0]) {
        seq![x] + s
    } else {
        seq![s[0]] + page_insert(s.drop_first(), x)
    }
}

/// The page order of `s`: each record placed in turn, first to last, at
/// its stable position.
pub open spec fn page_order(s: Seq<QueriedListingView>) -> Seq<QueriedListingView>
    decreases s.len(),
{
    if s.len() == 0 {
        Seq::empty()
    } else {
        page_insert(page_order(s.drop_last()), s.last())
    }
}

/// Whether `a` must stand strictly before `b` on the page.
fn before_exec(a: &QueriedListing, b: &QueriedListing) -> (r: bool)
    ensures
        r == page_before(a@, b@),
{
    if a.updated_minute != b.updated_minute {
        a.updated_minute > b.updated_minute
    } else if a.listing.category != b.listing.category {
        a.listing.category > b.listing.category
    } else {
        a.time_left < b.time_left
    }
}

/// Inserting at the stable position splits the sequence there.
proof fn lemma_page_insert_at(s: Seq<QueriedListingView>, x: QueriedListingView, k: int)
    requires
        0 <= k <= s.len(),
        forall|t: int| 0 <= t < k ==> !page_before(x, #[trigger] s[t]),
        k < s.len() ==> page_before(x, s[k]),
    ensures
        page_insert(s, x) == s.subrange(0, k) + seq![x] + s.subrange(k, s.len() as int),
    decreases s.len(),
{
    if s.len() == 0 {
        assert(page_insert(s, x) =~= s.subrange(0, 0) + seq![x] + s.subrange(0, 0));
    } else if k == 0 {
        assert(page_insert(s, x) =~= s.subrange(0, 0) + seq![x] + s.subrange(0, s.len() as int));
    } else {
        let rest = s.drop_first();
        assert(forall|t: int| 0 <= t < k - 1 ==> !page_before(x, #[trigger] rest[t])) by {
            assert(forall|t: int| 0 <= t < k - 1 ==> rest[t] == s[t + 1]);
        }
        lemma_page_insert_at(rest, x, k - 1);
        assert(page_insert(s, x) =~= s.subrange(0, k) + seq![x] + s.subrange(k, s.len() as int));
    }
}

/// Sorts the queried records into page order.  The result is exactly the
/// stable page order of the input: the same records (as a multiset),
/// arranged so that none stands after a record it must precede, with
/// ties left in input order.
pub fn sort_listings_page(v: Vec<QueriedListing>) -> (out: Vec<QueriedListing>)
    ensures
        out.deep_view() == page_order(v.deep_view()),
        out.deep_view().to_multiset() == v.deep_view().to_multiset(),
        page_sorted(out.deep_view()),
{
    broadcast use group_seq_properties;

    let ghost all = v.deep_view();
    let mut out: Vec<QueriedListing> = Vec::new();
    let mut i: usize = 0;
    proof {
        assert(all.take(0) =~= Seq::<QueriedListingView>::empty());
        assert(out.deep_view() =~= page_order(all.take(0)));
        assert(out.deep_view().to_multiset() =~= all.take(0).to_multiset());
    }
    while i < v.len()
        invariant
            i <= all.len(),
            all == v.deep_view(),
            out.deep_view() == page_order(all.take(i as int)),
            out.deep_view().to_multiset() == all.take(i as int).to_multiset(),
            page_sorted(out.deep_view()),
        decreases all.len() - i,
    {
        let ghost pre = out.deep_view();
        let x = v[i].duplicate();
        let mut k: usize = 0;
        while k < out.len() && !before_exec(&x, &out[k])
            invariant
                k <= out.deep_view().len(),
                out.deep_view() == pre,
                i < all.len(),
                all == v.deep_view(),
                x@ == all[i as int],
                forall|t: int| 0 <= t < k ==> !page_before(x@, #[trigger] pre[t]),
            decreases out.deep_view().len() - k,
        {
            k = k + 1;
        }
        proof {
            lemma_page_insert_at(pre, x@, k as int);
        }
        out.insert(k, x);
        proof {
            broadcast use vstd::seq_lib::group_to_multiset_ensures;

            assert(out.deep_view() =~= pre.insert(k as int, x@));
            assert(out.deep_view() =~= pre.subrange(0, k as int) + seq![all[i as int]]
                + pre.subrange(k as int, pre.len() as int));
            assert(all.take(i as int + 1).drop_last() =~= all.take(i as int));
            assert(all.take(i as int + 1).last() == all[i as int]);
            assert(out.deep_view() == page_order(all.take(i as int + 1)));
            assert(all.take(i as int + 1) =~= all.take(i as int).push(all[i as int]));
            vstd::seq_lib::to_multiset_insert(pre, k as int, x@);
            assert(out.deep_view().to_multiset() =~= all.take(i as int + 1).to_multiset());
            assert forall|a: int, b: int|
                0 <= a < b < out.deep_view().len() implies !page_before(
                out.deep_view()[b],
                out.deep_view()[a],
            ) by {
                let s = out.deep_view();
                let ki = k as int;
                if a == ki && b > ki {
                    assert(ki < pre.len());
                    assert(page_before(x@, pre[ki]));
                    assert(s[b] == pre[b - 1]);
                    if b - 1 > ki {
                        assert(!page_before(pre[b - 1], pre[ki]));
                    }
                } else if b == ki && a < ki {
                    assert(s[a] == pre[a]);
                    assert(!page_before(x@, pre[a]));
                } else if a < ki && b > ki {
                    assert(s[a] == pre[a] && s[b] == pre[b - 1]);
                } else if a < ki && b < ki {
                    assert(s[a] == pre[a] && s[b] == pre[b]);
                } else {
                    assert(s[a] == pre[a - 1] && s[b] == pre[b - 1]);
                }
            };
        }
        i = i + 1;
    }
    proof {
        assert(all.take(all.len() as int) =~= all);
    }
    out
}

} // verus!
