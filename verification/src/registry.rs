//! The product registry: the whole durable state of one contract instance,
//! with the two mutating operations and the two read accessors.

use vstd::prelude::*;

use crate::product::Product;
use crate::stats::{
    apply_transition, delivered_label, in_transit_label, manufactured_label, transition_stats,
    ChainStats,
};

verus! {

/// Why a mutating operation refused to run.
#[derive(Clone, Copy, PartialEq, Eq, Structural, Debug)]
pub enum RegistryError {
    /// The given id was never assigned; the call changes nothing.
    ProductNotFound,
}

/// How many records of `products` carry exactly the status `status`.
pub open spec fn count_with_status(products: Seq<Product>, status: Seq<char>) -> nat
    decreases products.len(),
{
    if products.len() == 0 {
        0
    } else {
        count_with_status(products.drop_last(), status) + (if products.last().status@ == status {
            1nat
        } else {
            0nat
        })
    }
}

proof fn lemma_count_push(products: Seq<Product>, appended: Product, status: Seq<char>)
    ensures
        count_with_status(products.push(appended), status) == count_with_status(products, status)
            + (if appended.status@ == status {
            1nat
        } else {
            0nat
        }),
{
    assert(products.push(appended).drop_last() =~= products);
}

proof fn lemma_count_update(products: Seq<Product>, i: int, replacement: Product, status: Seq<char>)
    requires
        0 <= i < products.len(),
    ensures
        count_with_status(products.update(i, replacement), status) == count_with_status(
            products,
            status,
        ) - (if products[i].status@ == status {
            1nat
        } else {
            0nat
        }) + (if replacement.status@ == status {
            1nat
        } else {
            0nat
        }),
    decreases products.len(),
{
    if i == products.len() - 1 {
        assert(products.update(i, replacement).drop_last() =~= products.drop_last());
    } else {
        assert(products.update(i, replacement).drop_last() =~= products.drop_last().update(
            i,
            replacement,
        ));
        lemma_count_update(products.drop_last(), i, replacement, status);
    }
}

proof fn lemma_count_at_least_one(products: Seq<Product>, i: int, status: Seq<char>)
    requires
        0 <= i < products.len(),
        products[i].status@ == status,
    ensures
        count_with_status(products, status) >= 1,
    decreases products.len(),
{
    if i < products.len() - 1 {
        lemma_count_at_least_one(products.drop_last(), i, status);
    }
}

/// The registry state: every product record in id order, and the counters.
///
/// The host keeps this state in its key-value store between calls; each call
/// works on the reconstructed state and commits it back whole, so one value
/// of this type stands for the store's entire contents.
pub struct SupplyChainContract {
    /// The record with id `i + 1` sits at index `i`.
    pub products: Vec<Product>,
    pub stats: ChainStats,
}

impl SupplyChainContract {
    /// How many products have ever been registered (also the last id given).
    pub open spec fn product_count(self) -> nat {
        self.products@.len()
    }

    /// Whether `product_id` was ever assigned by a registration.
    pub open spec fn registered(self, product_id: u64) -> bool {
        1 <= product_id <= self.product_count()
    }

    /// The stored record of a registered id.
    pub open spec fn record(self, product_id: u64) -> Product {
        self.products@[product_id - 1]
    }

    /// The state invariant every operation keeps:
    /// the total counter equals the number of records, each record carries
    /// the id it is filed under, and the in-transit counter covers at least
    /// every product whose current status is `in_transit` (repeated
    /// transitions can leave it larger; it never falls below, so it can
    /// always give a slot back on a delivery out of transit).
    pub open spec fn wf(self) -> bool {
        &&& self.stats.total_products == self.product_count()
        &&& forall|i: int|
            0 <= i < self.products@.len() ==> (#[trigger] self.products@[i]).product_id == i + 1
        &&& count_with_status(self.products@, in_transit_label()) <= self.stats.in_transit
    }

    /// A registry with no products and zeroed counters: the state a fresh
    /// contract instance reads out of an empty store.
    pub fn new() -> (registry: SupplyChainContract)
        ensures
            registry.wf(),
            registry.product_count() == 0,
            forall|id: u64| !registry.registered(id),
            registry.stats == (ChainStats { total_products: 0, in_transit: 0, delivered: 0 }),
    {
        SupplyChainContract { products: Vec::new(), stats: ChainStats::zero() }
    }

    /// Admits a new product and returns its id, which is always one more
    /// than the count of products registered before the call. The new record
    /// carries the given fields, the ledger time `now`, and the status
    /// `manufactured`; the total counter grows by one and the other counters
    /// and all older records stay as they were.
    pub fn register_product(
        &mut self,
        name: String,
        qr_code: String,
        location: String,
        now: u64,
    ) -> (id: u64)
        requires
            old(self).wf(),
            old(self).product_count() < u64::MAX,
        ensures
            final(self).wf(),
            id == old(self).product_count() + 1,
            final(self).product_count() == old(self).product_count() + 1,
            forall|other: u64|
                final(self).registered(other) <==> (old(self).registered(other) || other == id),
            forall|other: u64|
                old(self).registered(other) ==> final(self).record(other) == old(self).record(
                    other,
                ),
            final(self).record(id).product_id == id,
            final(self).record(id).name == name,
            final(self).record(id).qr_code == qr_code,
            final(self).record(id).current_location == location,
            final(self).record(id).timestamp == now,
            final(self).record(id).status@ == manufactured_label(),
            final(self).stats.total_products == old(self).stats.total_products + 1,
            final(self).stats.in_transit == old(self).stats.in_transit,
            final(self).stats.delivered == old(self).stats.delivered,
    {
        let id: u64 = self.products.len() as u64 + 1;
        let record = Product {
            product_id: id,
            name,
            qr_code,
            current_location: location,
            timestamp: now,
            status: String::from_str("manufactured"),
        };
        proof {
            // A fresh record never counts as in transit: the two labels have
            // different lengths, which the reveals make visible.
            reveal_strlit("manufactured");
            reveal_strlit("in_transit");
            assert(manufactured_label().len() == 12);
            assert(in_transit_label().len() == 10);
            lemma_count_push(self.products@, record, in_transit_label());
        }
        self.products.push(record);
        self.stats.total_products = self.stats.total_products + 1;
        id
    }

    /// Whether the counters have room for the transition an update asks for;
    /// only the machine width of the counters demands this.
    pub open spec fn update_fits(self, product_id: u64, new_status: Seq<char>) -> bool {
        &&& self.registered(product_id) && self.record(product_id).status@ != new_status
            && new_status == in_transit_label() ==> self.stats.in_transit < u64::MAX
        &&& self.registered(product_id) && self.record(product_id).status@ != new_status
            && new_status == delivered_label() ==> self.stats.delivered < u64::MAX
    }

    /// Moves a registered product to a new location and status, stamps it
    /// with the ledger time `now`, and folds the status transition into the
    /// counters. On an id that was never registered it returns an error and
    /// leaves the whole state exactly as it was, standing in for the host's
    /// abort-and-roll-back of the call.
    pub fn update_location(
        &mut self,
        product_id: u64,
        new_location: String,
        new_status: String,
        now: u64,
    ) -> (outcome: Result<(), RegistryError>)
        requires
            old(self).wf(),
            old(self).update_fits(product_id, new_status@),
        ensures
            final(self).wf(),
            outcome is Ok <==> old(self).registered(product_id),
            !old(self).registered(product_id) ==> *final(self) == *old(self) && outcome == Err::<
                (),
                RegistryError,
            >(RegistryError::ProductNotFound),
            old(self).registered(product_id) ==> {
                &&& final(self).product_count() == old(self).product_count()
                &&& forall|other: u64|
                    final(self).registered(other) <==> old(self).registered(other)
                &&& forall|other: u64|
                    old(self).registered(other) && other != product_id ==> final(self).record(
                        other,
                    ) == old(self).record(other)
                &&& final(self).record(product_id).product_id == product_id
                &&& final(self).record(product_id).name == old(self).record(product_id).name
                &&& final(self).record(product_id).qr_code == old(self).record(product_id).qr_code
                &&& final(self).record(product_id).current_location == new_location
                &&& final(self).record(product_id).timestamp == now
                &&& final(self).record(product_id).status == new_status
                &&& final(self).stats == transition_stats(
                    old(self).stats,
                    old(self).record(product_id).status@,
                    new_status@,
                )
            },
            // An update to the product's current status moves no counter.
            old(self).registered(product_id) && old(self).record(product_id).status@
                == new_status@ ==> final(self).stats == old(self).stats,
    {
        if product_id == 0 || product_id > self.products.len() as u64 {
            return Err(RegistryError::ProductNotFound);
        }
        let idx: usize = (product_id - 1) as usize;

        proof {
            if self.products@[idx as int].status@ == in_transit_label() {
                lemma_count_at_least_one(self.products@, idx as int, in_transit_label());
            }
        }
        let new_stats = apply_transition(self.stats, &self.products[idx].status, &new_status);

        let updated = Product {
            product_id,
            name: self.products[idx].name.clone(),
            qr_code: self.products[idx].qr_code.clone(),
            current_location: new_location,
            timestamp: now,
            status: new_status,
        };
        proof {
            lemma_count_update(self.products@, idx as int, updated, in_transit_label());
        }
        self.products.set(idx, updated);
        self.stats = new_stats;
        Ok(())
    }

    /// The stored record of `product_id`, or the sentinel (id 0, every text
    /// field `Not_Found`) when that id was never assigned. Never fails;
    /// callers tell the two apart by `product_id == 0` alone.
    pub fn view_product(&self, product_id: u64) -> (record: Product)
        ensures
            self.registered(product_id) ==> record == self.record(product_id),
            !self.registered(product_id) ==> record.is_not_found(),
    {
        if product_id >= 1 && product_id <= self.products.len() as u64 {
            let idx: usize = (product_id - 1) as usize;
            self.products[idx].clone()
        } else {
            Product::not_found()
        }
    }

    /// The current counters; zero-valued on a fresh registry. Never fails.
    pub fn view_chain_stats(&self) -> (stats: ChainStats)
        ensures
            stats == self.stats,
    {
        self.stats
    }
}

/// Law: ids are assigned in call order with no gaps or repeats — exactly the
/// ids 1 through the product count are registered, and each record carries
/// the id it was returned under, so no two registered ids share a record.
pub proof fn lemma_ids_sequential(registry: SupplyChainContract)
    requires
        registry.wf(),
    ensures
        forall|id: u64| registry.registered(id) <==> 1 <= id <= registry.product_count(),
        forall|id: u64|
            registry.registered(id) ==> #[trigger] registry.record(id).product_id == id,
{
}

} // verus!
