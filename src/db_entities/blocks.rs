//! A row of the `blocks` table.

use vstd::prelude::*;

verus! {

#[derive(Clone, Debug, PartialEq, Eq)]
pub struct Model {
    pub id: Vec<u8>,
    pub layer: i32,
    /// 1 when the block is valid.
    pub validity: Option<i32>,
    pub block: Option<Vec<u8>>,
}

} // verus!
