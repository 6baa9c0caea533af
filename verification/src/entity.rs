//! Warehouse placement of an entity inside a facility.

use vstd::prelude::*;

verus! {

#[derive(Debug, PartialEq, Eq)]
pub struct WarehouseInternalLocation {
    pub warehouse_bin: String,
    pub warehouse_rack: String,
    pub warehouse_section: String,
}

} // verus!
