//! The subscription registry: a per-connection mapping from channel to
//! the cancel handle of its forwarding task.
//!
//! Exclusively owned by one connection actor.  It enforces at most one
//! handle per channel by construction: `insert` hands back any prior
//! handle so the caller can cancel it, and `remove_all` clears the whole
//! map at teardown, idempotently.

use vstd::prelude::*;

use crate::protocol::Channel;

verus! {

/// The mapping itself.  One field per channel of the closed enumeration.
pub struct Registry {
    listings: Option<u64>,
}

impl Registry {
    /// The handle registered for `ch`, if any.
    pub closed spec fn lookup(self, ch: Channel) -> Option<u64> {
        match ch {
            Channel::Listings => self.listings,
        }
    }

    /// An empty registry.
    pub fn new() -> (r: Registry)
        ensures
            forall|ch: Channel| r.lookup(ch) is None,
    {
        Registry { listings: None }
    }

    /// The handle registered for `ch`, if any.
    pub fn get(&self, ch: Channel) -> (r: Option<u64>)
        ensures
            r == self.lookup(ch),
    {
        match ch {
            Channel::Listings => self.listings,
        }
    }

    /// Registers `task` for `ch`, handing back the handle it displaces so
    /// the caller can cancel it; every other channel keeps its entry.
    pub fn insert(&mut self, ch: Channel, task: u64) -> (prior: Option<u64>)
        ensures
            prior == old(self).lookup(ch),
            final(self).lookup(ch) == Some(task),
            forall|c: Channel| c != ch ==> final(self).lookup(c) == old(self).lookup(c),
    {
        match ch {
            Channel::Listings => {
                let prior = self.listings;
                self.listings = Some(task);
                prior
            }
        }
    }

    /// Drops the entry for `ch`, handing back its handle so the caller
    /// can cancel it; every other channel keeps its entry.  A no-op when
    /// the channel has no entry.
    pub fn remove(&mut self, ch: Channel) -> (prior: Option<u64>)
        ensures
            prior == old(self).lookup(ch),
            final(self).lookup(ch) is None,
            forall|c: Channel| c != ch ==> final(self).lookup(c) == old(self).lookup(c),
    {
        match ch {
            Channel::Listings => {
                let prior = self.listings;
                self.listings = None;
                prior
            }
        }
    }

    /// Clears the map, handing back every registered handle so the caller
    /// can cancel them all.  Cancellation is a request, not a join: the
    /// caller does not wait for the tasks.  Calling this again at once
    /// returns nothing — it is idempotent.
    pub fn remove_all(&mut self) -> (handles: Vec<u64>)
        ensures
            forall|ch: Channel| final(self).lookup(ch) is None,
            handles@ == match old(self).lookup(Channel::Listings) {
                Some(t) => seq![t],
                None => Seq::<u64>::empty(),
            },
    {
        let mut handles: Vec<u64> = Vec::new();
        if let Some(t) = self.listings {
            handles.push(t);
        }
        self.listings = None;
        proof {
            match old(self).lookup(Channel::Listings) {
                Some(t) => assert(handles@ =~= seq![t]),
                None => assert(handles@ =~= Seq::<u64>::empty()),
            }
        }
        handles
    }
}

} // verus!
