//! What callers can rely on: laws over what goes into the functions of the
//! library and what comes out of them.

pub mod block_times;
pub mod epicbox;
pub mod history;
pub mod outputs;
pub mod pow;
pub mod request;
pub mod scan;
pub mod sending;
pub mod snapshot;
pub mod text;
pub mod transport;
pub mod wallet;
