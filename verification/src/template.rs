//! The data handed to the HTML views: the current listings page and the
//! statistics page.  Rendering itself is a shell concern; the core only
//! assembles the values in the order the page shows them.

use vstd::prelude::*;

use crate::ffxiv::Language;
use crate::stats::Statistics;
use crate::store::QueriedListing;

verus! {

/// Everything the listings page shows: the queried records in page
/// order, and the viewer's language.
pub struct ListingsTemplate {
    pub containers: Vec<QueriedListing>,
    pub lang: Language,
}

/// Everything the statistics page shows.
pub struct StatsTemplate {
    pub stats: Statistics,
    pub lang: Language,
}

} // verus!
