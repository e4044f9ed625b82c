//! A pay-as-you-go energy grid: meters, payments, usage and the rules for running them.

pub mod access;
pub mod activation;
pub mod collaborators;
pub mod events;
pub mod invariants;
pub mod laws;
pub mod lists;
pub mod meters;
pub mod migration;
pub mod multisig;
pub mod payments;
pub mod promises;
pub mod refunds;
pub mod registry;
pub mod state;
pub mod table;
pub mod types;
pub mod usage;
pub mod values;
pub mod withdrawals;
