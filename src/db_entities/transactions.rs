//! A row of the `transactions` table.

use vstd::prelude::*;

verus! {

#[derive(Clone, Debug, PartialEq, Eq)]
pub struct Model {
    pub id: Vec<u8>,
    pub tx: Option<Vec<u8>>,
    pub header: Option<Vec<u8>>,
    pub result: Option<Vec<u8>>,
    pub layer: Option<i32>,
    pub block: Option<Vec<u8>>,
    pub principal: Option<Vec<u8>>,
    pub nonce: Option<Vec<u8>>,
    /// Nanoseconds since the Unix epoch.
    pub timestamp: i64,
}

} // verus!
