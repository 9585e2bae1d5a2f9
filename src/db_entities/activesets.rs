//! A row of the `activesets` table.

use vstd::prelude::*;

verus! {

#[derive(Clone, Debug, PartialEq, Eq)]
pub struct Model {
    pub id: Vec<u8>,
    pub active_set: Option<Vec<u8>>,
    pub epoch: i32,
}

} // verus!
