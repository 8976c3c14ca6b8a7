//! What is relied on between the wallet and the epicbox server.

pub mod address;
pub mod broker;
pub mod channel;
pub mod controller;
