//! A row of the `proposal_transactions` table.

use vstd::prelude::*;

verus! {

#[derive(Clone, Debug, PartialEq, Eq)]
pub struct Model {
    pub tid: Vec<u8>,
    pub pid: Vec<u8>,
    pub layer: i32,
}

} // verus!
