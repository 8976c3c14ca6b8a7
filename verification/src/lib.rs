//! Decision core of the Altbase Epic wallet bridge.

pub mod block_times;
pub mod epicbox;
pub mod history;
pub mod json;
pub mod laws;
pub mod outputs;
pub mod pow;
pub mod request;
pub mod scan;
pub mod sending;
pub mod snapshot;
pub mod text;
pub mod transport;
pub mod wallet;
