//! The epicbox adapter: addresses, connections, subscriptions and slates.

pub mod address;
pub mod broker;
pub mod channel;
pub mod controller;
pub mod error;
pub mod registry;
