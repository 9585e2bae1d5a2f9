//! Rows of the chain database, as plain values.

pub mod accounts;
pub mod activesets;
pub mod blocks;
pub mod layers;
pub mod proposal_transactions;
pub mod rewards;
pub mod transactions;
