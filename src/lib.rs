//! A cross-chain revenue proxy: it forwards its balance to a fixed recipient
//! once a threshold is met, lets a privileged account swap on its behalf, and
//! hands that privilege over through a two-step propose / accept protocol.

pub mod admin;
pub mod error;
pub mod msg;
pub mod state;
pub mod contract;
