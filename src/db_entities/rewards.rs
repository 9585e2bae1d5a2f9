//! A row of the `rewards` table.

use vstd::prelude::*;

verus! {

#[derive(Clone, Debug, PartialEq, Eq)]
pub struct Model {
    pub coinbase: Vec<u8>,
    pub layer: i32,
    pub total_reward: Option<i64>,
    pub layer_reward: Option<i64>,
}

} // verus!
