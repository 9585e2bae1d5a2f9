//! A row of the `layers` table.

use vstd::prelude::*;

verus! {

#[derive(Clone, Debug, PartialEq, Eq)]
pub struct Model {
    pub id: i32,
    /// 1 once the layer has been processed.
    pub processed: Option<i32>,
    pub applied_block: Option<Vec<u8>>,
    pub state_hash: Option<Vec<u8>>,
    pub aggregated_hash: Option<Vec<u8>>,
}

} // verus!
