//! Listings and the validation rules the ingestion gate applies to them.

use vstd::prelude::*;

verus! {

/// Largest accepted `seconds_remaining`: one hour.
pub const MAX_SECONDS_REMAINING: u16 = 3600;

/// World identifiers must lie strictly below this ceiling.
pub const WORLD_ID_CEILING: u16 = 1000;

/// Bit of `search_area` that marks a listing as private.
pub const SEARCH_AREA_PRIVATE: u32 = 2;

/// The triple that identifies a listing.  A later submission with the same
/// key supersedes the earlier one; the store never holds two records with
/// the same key.
#[derive(Clone, Copy, PartialEq, Eq, Structural, Debug)]
pub struct ListingKey {
    pub id: u32,
    pub last_server_restart: u32,
    pub created_world: u16,
}

/// One recruitment listing as submitted by a client.  Timestamps are kept
/// outside the listing (see the stored record); the name and description
/// are opaque byte payloads.
#[derive(Clone, PartialEq, Eq, Debug)]
pub struct Listing {
    pub id: u32,
    pub last_server_restart: u32,
    pub created_world: u16,
    pub home_world: u16,
    pub current_world: u16,
    pub seconds_remaining: u16,
    pub category: u8,
    pub search_area: u32,
    pub name: Vec<u8>,
    pub description: Vec<u8>,
}

/// Mathematical image of a [`Listing`]: byte payloads become sequences.
pub struct ListingView {
    pub id: u32,
    pub last_server_restart: u32,
    pub created_world: u16,
    pub home_world: u16,
    pub current_world: u16,
    pub seconds_remaining: u16,
    pub category: u8,
    pub search_area: u32,
    pub name: Seq<u8>,
    pub description: Seq<u8>,
}

impl View for Listing {
    type V = ListingView;

    open spec fn view(&self) -> ListingView {
        ListingView {
            id: self.id,
            last_server_restart: self.last_server_restart,
            created_world: self.created_world,
            home_world: self.home_world,
            current_world: self.current_world,
            seconds_remaining: self.seconds_remaining,
            category: self.category,
            search_area: self.search_area,
            name: self.name@,
            description: self.description@,
        }
    }
}

impl DeepView for Listing {
    type V = ListingView;

    open spec fn deep_view(&self) -> ListingView {
        self@
    }
}

impl ListingView {
    /// The identifying triple of this listing.
    pub open spec fn key(self) -> ListingKey {
        ListingKey {
            id: self.id,
            last_server_restart: self.last_server_restart,
            created_world: self.created_world,
        }
    }

    /// The remaining-time bound holds.
    pub open spec fn seconds_ok(self) -> bool {
        self.seconds_remaining <= MAX_SECONDS_REMAINING
    }

    /// Every world identifier lies below the ceiling.
    pub open spec fn worlds_ok(self) -> bool {
        &&& self.created_world < WORLD_ID_CEILING
        &&& self.home_world < WORLD_ID_CEILING
        &&& self.current_world < WORLD_ID_CEILING
    }

    /// Ingestion accepts exactly the listings for which this holds.
    pub open spec fn valid(self) -> bool {
        self.seconds_ok() && self.worlds_ok()
    }

    /// Private listings are stored but kept out of window queries.
    pub open spec fn is_private(self) -> bool {
        self.search_area & SEARCH_AREA_PRIVATE != 0
    }
}

/// Why the ingestion gate refused a listing.
#[derive(Clone, Copy, PartialEq, Eq, Structural, Debug)]
pub enum RejectReason {
    /// `seconds_remaining` exceeded one hour.
    SecondsTooHigh,
    /// A world identifier reached the configured ceiling.
    WorldTooHigh,
}

/// Byte-for-byte copy of an opaque payload.
pub fn copy_bytes(src: &Vec<u8>) -> (r: Vec<u8>)
    ensures
        r@ == src@,
{
    let mut r: Vec<u8> = Vec::new();
    let mut i: usize = 0;
    while i < src.len()
        invariant
            i <= src.len(),
            r@ == src@.subrange(0, i as int),
        decreases src.len() - i,
    {
        r.push(src[i]);
        proof {
            assert(r@ =~= src@.subrange(0, i + 1 as int));
        }
        i = i + 1;
    }
    proof {
        assert(r@ =~= src@);
    }
    r
}

impl Listing {
    /// The identifying triple.
    pub fn key(&self) -> (k: ListingKey)
        ensures
            k == self@.key(),
    {
        ListingKey {
            id: self.id,
            last_server_restart: self.last_server_restart,
            created_world: self.created_world,
        }
    }

    /// Whether the private bit of the search area is set.
    pub fn is_private(&self) -> (r: bool)
        ensures
            r == self@.is_private(),
    {
        self.search_area & SEARCH_AREA_PRIVATE != 0
    }

    /// A copy whose mathematical image equals this listing's.
    pub fn duplicate(&self) -> (r: Listing)
        ensures
            r@ == self@,
    {
        Listing {
            id: self.id,
            last_server_restart: self.last_server_restart,
            created_world: self.created_world,
            home_world: self.home_world,
            current_world: self.current_world,
            seconds_remaining: self.seconds_remaining,
            category: self.category,
            search_area: self.search_area,
            name: copy_bytes(&self.name),
            description: copy_bytes(&self.description),
        }
    }

    /// Applies the ingestion validation rules: the remaining time may not
    /// exceed one hour, and every world identifier must lie below the
    /// ceiling.  The remaining-time rule is checked first.
    pub fn validate(&self) -> (r: Result<(), RejectReason>)
        ensures
            r is Ok <==> self@.valid(),
            r == Err::<(), RejectReason>(RejectReason::SecondsTooHigh) <==> !self@.seconds_ok(),
            r == Err::<(), RejectReason>(RejectReason::WorldTooHigh)
                <==> self@.seconds_ok() && !self@.worlds_ok(),
    {
        if self.seconds_remaining > MAX_SECONDS_REMAINING {
            Err(RejectReason::SecondsTooHigh)
        } else if self.created_world >= WORLD_ID_CEILING
            || self.home_world >= WORLD_ID_CEILING
            || self.current_world >= WORLD_ID_CEILING
        {
            Err(RejectReason::WorldTooHigh)
        } else {
            Ok(())
        }
    }
}

} // verus!
