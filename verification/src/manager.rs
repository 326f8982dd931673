//! The device-manager side of the core: the table of supported USB
//! vendor and product ids, built once at startup.

use vstd::prelude::*;

verus! {

/// One supported vendor with its product ids.
pub struct ProductEntry {
    pub vendor_id: u16,
    pub product_ids: Vec<u16>,
}

/// Builds the table of supported products: the one known vendor id with
/// its single known product id.
pub fn init() -> (r: Vec<ProductEntry>)
    ensures
        r@.len() == 1,
        r@[0].vendor_id == 0x1EA7,
        r@[0].product_ids@ == seq![0x907u16],
{
    let mut product_ids: Vec<u16> = Vec::new();
    product_ids.push(0x907);
    proof {
        assert(product_ids@ =~= seq![0x907u16]);
    }
    let mut r: Vec<ProductEntry> = Vec::new();
    r.push(ProductEntry { vendor_id: 0x1EA7, product_ids });
    r
}

} // verus!
