//! Failures of the epicbox adapter.

use vstd::prelude::*;

verus! {

/// Why an epicbox operation failed.
#[derive(Debug)]
pub enum Error {
    /// The connection to the epicbox server, with the reason.
    EpicboxTungstenite(String),
    /// The connection ended without being closed.
    EpicboxWebsocketAbnormalTermination,
    /// A slate could not be received, with the reason.
    EpicboxReceiveTx(String),
    /// There is no listener for an interface.
    NoListener(String),
    /// Any other failure of the adapter, in words.
    GenericError(String),
    /// A failure of the wallet, by its text.
    Wallet(String),
}

} // verus!
