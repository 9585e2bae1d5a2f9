//! A row of the `accounts` table.

use vstd::prelude::*;

verus! {

#[derive(Clone, Debug, PartialEq, Eq)]
pub struct Model {
    pub address: Vec<u8>,
    /// Balance in the smallest unit of the coin.
    pub balance: i64,
    pub next_nonce: i64,
    pub layer_updated: i32,
    pub template: Option<Vec<u8>>,
    pub state: Option<Vec<u8>>,
}

} // verus!
