//! What each operation does, said of its inputs and results: when it is let in, what it changes
//! and by how much, and what it leaves alone.

pub mod access;
pub mod activation;
pub mod basics;
pub mod collaborators;
pub mod events;
pub mod layouts;
pub mod meters;
pub mod multisig;
pub mod payments;
pub mod refunds;
pub mod registry;
pub mod stored;
pub mod usage;
pub mod withdrawals;
