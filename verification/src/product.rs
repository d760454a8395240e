//! The per-product record and the key kind under which the host stores it.

use vstd::prelude::*;

verus! {

/// The text every field of the sentinel record carries.
pub open spec fn not_found_label() -> Seq<char> {
    "Not_Found"@
}

/// One tracked item in the supply chain.
pub struct Product {
    /// Unique positive id, assigned sequentially from 1; 0 is the sentinel.
    pub product_id: u64,
    pub name: String,
    /// Scannable identifier.
    pub qr_code: String,
    pub current_location: String,
    /// Ledger time of the last mutation.
    pub timestamp: u64,
    /// Free-form status label; registration writes `manufactured`.
    pub status: String,
}

impl Clone for Product {
    fn clone(&self) -> (copied: Self)
        ensures
            copied == *self,
    {
        Product {
            product_id: self.product_id,
            name: self.name.clone(),
            qr_code: self.qr_code.clone(),
            current_location: self.current_location.clone(),
            timestamp: self.timestamp,
            status: self.status.clone(),
        }
    }
}

impl Product {
    /// True of the sentinel record that stands for an absent product.
    pub open spec fn is_not_found(self) -> bool {
        &&& self.product_id == 0
        &&& self.name@ == not_found_label()
        &&& self.qr_code@ == not_found_label()
        &&& self.current_location@ == not_found_label()
        &&& self.timestamp == 0
        &&& self.status@ == not_found_label()
    }

    /// The sentinel record: id 0 and every text field marked `Not_Found`.
    pub fn not_found() -> (sentinel: Product)
        ensures
            sentinel.is_not_found(),
    {
        Product {
            product_id: 0,
            name: String::from_str("Not_Found"),
            qr_code: String::from_str("Not_Found"),
            current_location: String::from_str("Not_Found"),
            timestamp: 0,
            status: String::from_str("Not_Found"),
        }
    }
}

/// The kind of key under which a product record is persisted.
#[derive(Clone, Copy, PartialEq, Eq, Structural, Debug)]
pub enum ProductBook {
    Product(u64),
}

impl ProductBook {
    /// The product id this key addresses.
    pub fn id(&self) -> (id: u64)
        ensures
            *self == ProductBook::Product(id),
    {
        match self {
            ProductBook::Product(inner) => *inner,
        }
    }
}

} // verus!
