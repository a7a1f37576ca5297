//! Consensus-gossip ingress for Ethereum Mainnet: the decisions of the sentry.
//!
//! What the sentry is told by its environment, by a Beacon API, by the clock and by the
//! network comes in as plain values, and what it is to do goes out as plain values.

pub mod bootstrap;
pub mod clock;
pub mod config;
pub mod decimal;
pub mod endpoint;
pub mod hash;
pub mod ingress;
pub mod ipv4;
pub mod network;
pub mod startup;
pub mod status;
pub mod text;
