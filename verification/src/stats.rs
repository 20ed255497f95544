//! Aggregated statistics as the store's grouped queries return them, and
//! the glue that joins the two aggregation passes: collecting the host
//! content identifiers the first pass surfaced, and attaching the
//! aliases the second pass resolved for them.

use vstd::prelude::*;

verus! {

/// How often one duty was listed.
#[derive(Clone, Copy, PartialEq, Eq, Structural, Debug)]
pub struct DutyCount {
    pub duty_type: u8,
    pub category: u8,
    pub duty: u16,
    pub count: u64,
}

/// How often one host (by content identifier) was seen.
#[derive(Clone, Copy, PartialEq, Eq, Structural, Debug)]
pub struct ContentIdCount {
    pub content_id: u32,
    pub count: u64,
}

/// Listings per world, with its most frequent hosts.
#[derive(Clone, PartialEq, Eq, Debug)]
pub struct HostCount {
    pub world: u16,
    pub count: u64,
    pub content_ids: Vec<ContentIdCount>,
}

/// Mathematical image of a [`HostCount`].
pub struct HostCountView {
    pub world: u16,
    pub count: u64,
    pub content_ids: Seq<ContentIdCount>,
}

impl View for HostCount {
    type V = HostCountView;

    open spec fn view(&self) -> HostCountView {
        HostCountView { world: self.world, count: self.count, content_ids: self.content_ids@ }
    }
}

impl DeepView for HostCount {
    type V = HostCountView;

    open spec fn deep_view(&self) -> HostCountView {
        self@
    }
}

/// Listings per hour of the day.
#[derive(Clone, Copy, PartialEq, Eq, Structural, Debug)]
pub struct HourCount {
    pub hour: u8,
    pub count: u64,
}

/// Listings per day of the week.
#[derive(Clone, Copy, PartialEq, Eq, Structural, Debug)]
pub struct DayCount {
    pub day: u8,
    pub count: u64,
}

/// The display name last seen for a host.
#[derive(Clone, PartialEq, Eq, Debug)]
pub struct Alias {
    pub content_id: u32,
    pub name: Vec<u8>,
    pub home_world: u16,
}

/// Mathematical image of an [`Alias`].
pub struct AliasView {
    pub content_id: u32,
    pub name: Seq<u8>,
    pub home_world: u16,
}

impl View for Alias {
    type V = AliasView;

    open spec fn view(&self) -> AliasView {
        AliasView { content_id: self.content_id, name: self.name@, home_world: self.home_world }
    }
}

impl DeepView for Alias {
    type V = AliasView;

    open spec fn deep_view(&self) -> AliasView {
        self@
    }
}

/// One statistics snapshot.
#[derive(Clone, PartialEq, Eq, Debug)]
pub struct Statistics {
    pub count: u64,
    pub duties: Vec<DutyCount>,
    pub hosts: Vec<HostCount>,
    pub hours: Vec<HourCount>,
    pub days: Vec<DayCount>,
    pub aliases: Vec<Alias>,
}

/// The two snapshots the service caches.
#[derive(Clone, PartialEq, Eq, Debug)]
pub struct CachedStatistics {
    pub all_time: Statistics,
    pub seven_days: Statistics,
}

/// The content identifiers of `hosts`, in order: every host's frequent
/// content identifiers, host by host.
pub open spec fn spec_host_ids(hosts: Seq<HostCountView>) -> Seq<u32>
    decreases hosts.len(),
{
    if hosts.len() == 0 {
        Seq::empty()
    } else {
        Seq::new(hosts[0].content_ids.len(), |i: int| hosts[0].content_ids[i].content_id)
            + spec_host_ids(hosts.drop_first())
    }
}

/// Collects the content identifiers the host aggregation surfaced, in
/// order; the alias query resolves names for exactly these.
pub fn host_content_ids(hosts: &Vec<HostCount>) -> (ids: Vec<u32>)
    ensures
        ids@ == spec_host_ids(hosts.deep_view()),
{
    let ghost all = hosts.deep_view();
    let mut ids: Vec<u32> = Vec::new();
    let mut i: usize = 0;
    proof {
        assert(all.skip(0) =~= all);
        assert(ids@ + spec_host_ids(all) =~= spec_host_ids(all));
    }
    while i < hosts.len()
        invariant
            i <= all.len(),
            all == hosts.deep_view(),
            ids@ + spec_host_ids(all.skip(i as int)) == spec_host_ids(all),
        decreases all.len() - i,
    {
        let ghost tail = all.skip(i as int);
        proof {
            assert(tail.drop_first() =~= all.skip(i as int + 1));
            assert(tail[0] == all[i as int]);
        }
        let ghost pre = ids@;
        let host = &hosts[i];
        let mut j: usize = 0;
        while j < host.content_ids.len()
            invariant
                j <= host.content_ids@.len(),
                host == &hosts[i as int],
                i < all.len(),
                all == hosts.deep_view(),
                ids@ == pre + Seq::new(j as nat, |k: int| all[i as int].content_ids[k].content_id),
            decreases host.content_ids@.len() - j,
        {
            ids.push(host.content_ids[j].content_id);
            proof {
                assert(ids@ =~= pre + Seq::new(
                    (j + 1) as nat,
                    |k: int| all[i as int].content_ids[k].content_id,
                ));
            }
            j = j + 1;
        }
        proof {
            assert(ids@ + spec_host_ids(all.skip(i as int + 1)) =~= spec_host_ids(all));
        }
        i = i + 1;
    }
    proof {
        assert(all.skip(all.len() as int) =~= Seq::<HostCountView>::empty());
        assert(ids@ =~= spec_host_ids(all));
    }
    ids
}

/// Attaches the aliases the second aggregation pass resolved; every
/// other part of the snapshot stays as the first pass produced it.
pub fn attach_aliases(stats: Statistics, aliases: Vec<Alias>) -> (r: Statistics)
    ensures
        r.count == stats.count,
        r.duties == stats.duties,
        r.hosts == stats.hosts,
        r.hours == stats.hours,
        r.days == stats.days,
        r.aliases == aliases,
{
    Statistics {
        count: stats.count,
        duties: stats.duties,
        hosts: stats.hosts,
        hours: stats.hours,
        days: stats.days,
        aliases,
    }
}

/// The snapshot a view asked for: the last seven days, or all time.
pub fn select_stats(cached: &CachedStatistics, seven_days: bool) -> (r: &Statistics)
    ensures
        seven_days ==> r == &cached.seven_days,
        !seven_days ==> r == &cached.all_time,
{
    if seven_days {
        &cached.seven_days
    } else {
        &cached.all_time
    }
}

} // verus!
