//! A verified supply-chain product registry.
//!
//! Products are admitted with sequential ids starting at 1, carry free-form
//! text fields and a status label, and a set of global counters (total,
//! in-transit, delivered) is kept consistent with the status transitions as
//! they happen. The registry models the whole durable state of one contract
//! instance; a host shell persists it between calls.

pub mod product;
pub mod registry;
pub mod stats;
