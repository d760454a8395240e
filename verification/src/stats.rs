//! Aggregate chain statistics and the pure reducer that updates them on a
//! status transition.

use vstd::prelude::*;

verus! {

/// The status label that registration assigns to every new product.
pub open spec fn manufactured_label() -> Seq<char> {
    "manufactured"@
}

/// The status label that makes a transition count as entering transit.
pub open spec fn in_transit_label() -> Seq<char> {
    "in_transit"@
}

/// The status label that makes a transition count as a delivery.
pub open spec fn delivered_label() -> Seq<char> {
    "delivered"@
}

/// Global counters over all products ever registered.
#[derive(Clone, Copy, PartialEq, Eq, Structural, Debug)]
pub struct ChainStats {
    /// Count of all products ever registered; never decreases.
    pub total_products: u64,
    /// Count of products currently believed to be in transit.
    pub in_transit: u64,
    /// Count of deliveries recorded so far.
    pub delivered: u64,
}

impl ChainStats {
    /// The statistics of a registry before any registration.
    pub fn zero() -> (stats: ChainStats)
        ensures
            stats == (ChainStats { total_products: 0, in_transit: 0, delivered: 0 }),
    {
        ChainStats { total_products: 0, in_transit: 0, delivered: 0 }
    }
}

/// How one status transition changes the counters.
///
/// A transition to the same status leaves them untouched. A transition into
/// `in_transit` increments `in_transit` whatever the old status was, and a
/// transition into `delivered` increments `delivered`, giving back the
/// `in_transit` slot only when the product came straight out of transit;
/// every other label leaves the counters alone. `total_products` is never
/// changed by a transition.
pub open spec fn transition_stats(
    stats: ChainStats,
    old_status: Seq<char>,
    new_status: Seq<char>,
) -> ChainStats {
    if old_status == new_status {
        stats
    } else if new_status == in_transit_label() {
        ChainStats {
            total_products: stats.total_products,
            in_transit: (stats.in_transit + 1) as u64,
            delivered: stats.delivered,
        }
    } else if new_status == delivered_label() {
        ChainStats {
            total_products: stats.total_products,
            in_transit: if old_status == in_transit_label() {
                (stats.in_transit - 1) as u64
            } else {
                stats.in_transit
            },
            delivered: (stats.delivered + 1) as u64,
        }
    } else {
        stats
    }
}

/// Executable form of [`transition_stats`]: the reducer the registry runs
/// after each location update.
pub fn apply_transition(stats: ChainStats, old_status: &String, new_status: &String) -> (updated:
    ChainStats)
    requires
        old_status@ != new_status@ && new_status@ == in_transit_label() ==> stats.in_transit
            < u64::MAX,
        old_status@ != new_status@ && new_status@ == delivered_label() ==> stats.delivered
            < u64::MAX,
        old_status@ == in_transit_label() && new_status@ == delivered_label()
            ==> stats.in_transit >= 1,
    ensures
        updated == transition_stats(stats, old_status@, new_status@),
{
    let in_transit_s = String::from_str("in_transit");
    let delivered_s = String::from_str("delivered");
    if *old_status == *new_status {
        stats
    } else if *new_status == in_transit_s {
        ChainStats {
            total_products: stats.total_products,
            in_transit: stats.in_transit + 1,
            delivered: stats.delivered,
        }
    } else if *new_status == delivered_s {
        ChainStats {
            total_products: stats.total_products,
            in_transit: if *old_status == in_transit_s {
                stats.in_transit - 1
            } else {
                stats.in_transit
            },
            delivered: stats.delivered + 1,
        }
    } else {
        stats
    }
}

/// Law: a transition to the current status is a no-op for the counters.
pub proof fn lemma_same_status_noop(stats: ChainStats, status: Seq<char>)
    ensures
        transition_stats(stats, status, status) == stats,
{
}

} // verus!
