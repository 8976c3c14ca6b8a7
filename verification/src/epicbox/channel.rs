//! Sending slates to, and listening for slates at, an epicbox server.

use vstd::prelude::*;

use crate::epicbox::address::{epicbox_url, is_secure, server_url, EpicboxAddress, EpicboxConfig};
use crate::epicbox::controller::{register_send_completion, remove_send_completion};
use crate::epicbox::error::Error;
use crate::epicbox::registry::Registry;
use crate::text::{decimal, decimal_text, join, join3};

verus! {

/// How long a sender waits for its slate to come back, in seconds.
pub const EPICBOX_SEND_COMPLETION_SECS: u64 = 90;

/// How often a sender looks for a listener before it gives up.
pub const LISTENER_LOOKS: u32 = 100;

/// The listener of a wallet.
pub struct EpicboxListenChannel {}

impl Clone for EpicboxListenChannel {
    fn clone(&self) -> (res: Self)
        ensures
            res == *self,
    {
        EpicboxListenChannel {  }
    }
}

/// The way to a destination.
pub struct EpicboxChannel {
    pub dest: String,
    pub epicbox_config: Option<EpicboxConfig>,
}

impl Clone for EpicboxChannel {
    fn clone(&self) -> (res: Self)
        ensures
            res == *self,
    {
        EpicboxChannel {
            dest: self.dest.clone(),
            epicbox_config: match &self.epicbox_config {
                Some(config) => Some(config.clone()),
                None => None,
            },
        }
    }
}

/// What happened to a listener outside; `P` is what sends its slates.
pub enum ListenEvent<P> {
    /// The address of the wallet was derived, or it failed.
    Addressed(Result<EpicboxAddress, Error>),
    /// The server could not be reached, with the reason.
    ConnectFailed(String),
    /// The server was reached; the text is the address in full.
    Connected { key: String, publisher: P },
    /// The subscription ended.
    Ended { key: String, result: Result<(), Error> },
}

/// What a listener is to do outside.
pub enum ListenAction {
    /// Connect to this URL.
    Connect(String),
    /// Subscribe in this mode.
    Subscribe { wallet_mode: String },
    /// Return.
    Return(Result<(), Error>),
}

/// How waiting for a slate ended; `S` is the slate.
pub enum Completion<S> {
    /// The slate came back and was finalized.
    Finalized(S),
    /// Finalizing it failed, with the reason.
    Failed(String),
    /// It did not come back in time.
    TimedOut,
    /// Nobody is left who could say.
    Disconnected,
}

/// What happened to a slate that is sent through a listener; `K` is the sender
/// that waits for it and `S` the slate.
pub enum RelayEvent<K, S> {
    /// The listener has not been found; `looks` is how often it was looked for.
    NotFound { looks: u32 },
    /// The listener was found.
    Found,
    /// The destination was read, or it failed.
    Destination(Result<K, Error>),
    /// The slate was given to the server, or the reason why not.
    Posted(Result<(), String>),
    /// Waiting ended.
    Waited(Completion<S>),
}

/// What is to be done with a slate that is sent through a listener.
pub enum RelayAction<S> {
    /// Look for the listener at this address, and pause where it is not there.
    Look { from: String },
    /// Read this destination.
    ReadDestination { to: String },
    /// Give the slate to the server through the listener at `from`, for the
    /// destination `to`.
    Post { from: String, to: String },
    /// Wait for the slate to come back.
    Wait,
    /// Return.
    Return(Result<S, Error>),
}

/// What happened to a slate that is sent; `K` is the sender that waits for it and `S` the slate.
pub enum SendEvent<K, S> {
    /// The sender is ready to wait.
    Begun(K),
    /// The connection was started, or it failed.
    Started(Result<(), Error>),
    /// The slate was given to the server, or it failed.
    Published(Result<(), Error>),
    /// The outputs were locked, or it failed.
    Locked(Result<(), Error>),
    /// Waiting ended.
    Waited(Completion<S>),
}

/// What is to be done with a slate that is sent.
pub enum SendAction<S> {
    /// Start the connection.
    Start,
    /// Give the slate to the server, for this destination.
    Publish { to: String },
    /// Lock the outputs that the slate spends, as sent to this destination.
    LockOutputs { to: String },
    /// Wait for the slate to come back.
    Wait,
    /// Return.
    Return(Result<S, Error>),
}

/// What happened while a connection is started.
pub enum StartEvent {
    /// The address of the wallet was derived, or it failed.
    Addressed(Result<EpicboxAddress, Error>),
    /// The server could not be reached, with the reason.
    ConnectFailed(String),
    /// The server was reached.
    Connected,
}

/// What is to be done to start a connection.
pub enum StartAction {
    /// Connect to this URL.
    Connect(String),
    /// Subscribe in this mode, beside the sender.
    Subscribe { wallet_mode: String },
    /// Give up.
    Fail(Error),
}

/// A text about the transaction with this identifier.
pub open spec fn about_transaction(slate_id: Seq<char>, rest: Seq<char>) -> Seq<char> {
    "Epicbox transaction "@ + slate_id + rest
}

/// The text for a slate of which nobody knows whether the server has it.
pub open spec fn outcome_uncertain(slate_id: Seq<char>, reason: Seq<char>) -> Seq<char> {
    about_transaction(slate_id, " publish outcome is uncertain: "@ + reason)
}

/// The text for a slate that was published and could not be finalized.
pub open spec fn finalization_failed(slate_id: Seq<char>, reason: Seq<char>) -> Seq<char> {
    about_transaction(slate_id, " was published but finalization failed: "@ + reason)
}

/// The text for a slate that was published and has not come back.
pub open spec fn awaiting_finalization(slate_id: Seq<char>) -> Seq<char> {
    about_transaction(slate_id, " was published and is awaiting finalization"@)
}

/// The text for a slate that was published and of which nothing will be heard.
pub open spec fn completion_lost(slate_id: Seq<char>) -> Seq<char> {
    about_transaction(slate_id, " was published but its completion channel closed unexpectedly"@)
}

/// The text for a listener that was not found.
pub open spec fn listener_not_ready() -> Seq<char> {
    "Epicbox listener is not ready"@
}

/// The text for a slate that was sent and has not come back in time.
pub open spec fn not_finalized(slate_id: Seq<char>) -> Seq<char> {
    about_transaction(
        slate_id,
        " was not finalized and accepted by the node within "@ + decimal(
            EPICBOX_SEND_COMPLETION_SECS as nat,
        ) + " seconds"@,
    )
}

/// The text for a slate that was sent and of which nothing will be heard.
pub open spec fn channel_closed(slate_id: Seq<char>) -> Seq<char> {
    about_transaction(slate_id, " completion channel closed unexpectedly"@)
}

/// Whether `res` is a failure in these words.
pub open spec fn fails_with<S>(res: Result<S, Error>, words: Seq<char>) -> bool {
    res matches Err(Error::GenericError(text)) && text@ == words
}

/// The senders that wait after an event of a slate that is sent through a listener.
pub open spec fn waiting_relays<K, S>(
    before: Map<Seq<char>, K>,
    slate_id: Seq<char>,
    event: RelayEvent<K, S>,
) -> Map<Seq<char>, K> {
    match event {
        RelayEvent::Destination(Ok(sender)) => before.insert(slate_id, sender),
        RelayEvent::Posted(Err(_)) | RelayEvent::Waited(_) => before.remove(slate_id),
        _ => before,
    }
}

/// Whether a slate that is sent goes on after an event.
pub open spec fn goes_on<K, S>(event: SendEvent<K, S>) -> bool {
    match event {
        SendEvent::Begun(_) => true,
        SendEvent::Started(result) => result is Ok,
        SendEvent::Published(result) => result is Ok,
        SendEvent::Locked(result) => result is Ok,
        SendEvent::Waited(_) => false,
    }
}

/// The senders that wait after an event of a slate that is sent.
pub open spec fn waiting_sends<K, S>(
    before: Map<Seq<char>, K>,
    slate_id: Seq<char>,
    event: SendEvent<K, S>,
) -> Map<Seq<char>, K> {
    match event {
        SendEvent::Begun(sender) => before.insert(slate_id, sender),
        _ => if goes_on(event) {
            before
        } else {
            before.remove(slate_id)
        },
    }
}

/// A slate that is no longer sent leaves no sender waiting for it, however it
/// ended after the destination was read, and no event touches the senders of other slates.
pub proof fn no_sender_waits_in_vain<K, S>(
    before: Map<Seq<char>, K>,
    slate_id: Seq<char>,
    other: Seq<char>,
    relay: RelayEvent<K, S>,
    send: SendEvent<K, S>,
)
    requires
        other != slate_id,
    ensures
        !goes_on(send) ==> !waiting_sends(before, slate_id, send).contains_key(slate_id),
        relay is Waited || (relay is Posted && relay->Posted_0 is Err) ==> !waiting_relays(
            before,
            slate_id,
            relay,
        ).contains_key(slate_id),
        waiting_sends(before, slate_id, send).contains_key(other) <==> before.contains_key(other),
        waiting_relays(before, slate_id, relay).contains_key(other) <==> before.contains_key(other),
        before.contains_key(other) ==> waiting_sends(before, slate_id, send)[other] == before[other]
            && waiting_relays(before, slate_id, relay)[other] == before[other],
{
}

fn transaction_error(slate_id: &str, rest: &str) -> (res: Error)
    ensures
        res matches Error::GenericError(text) && text@ == about_transaction(slate_id@, rest@),
{
    Error::GenericError(join3("Epicbox transaction ", slate_id, rest))
}

impl EpicboxListenChannel {
    /// A listener.
    pub fn new() -> (res: Result<EpicboxListenChannel, Error>)
        ensures
            res is Ok,
    {
        Ok(EpicboxListenChannel {  })
    }

    /// Takes in what happened to the listener and says what is to be done.
    /// While the subscription runs, what sends its slates is found among
    /// `publishers` under the address; a failed connection is counted.
    pub fn listen<P>(
        &self,
        config: &EpicboxConfig,
        publishers: &mut Registry<P>,
        reconnections: &mut u32,
        event: ListenEvent<P>,
    ) -> (res: ListenAction)
        requires
            old(publishers).well_formed(),
            event is ConnectFailed ==> *old(reconnections) < u32::MAX,
        ensures
            final(publishers).well_formed(),
            match event {
                ListenEvent::Addressed(Ok(address)) => {
                    &&& res matches ListenAction::Connect(url)
                    &&& url@ == server_url(is_secure(*config), address.domain@, address.port)
                    &&& final(publishers)@ == old(publishers)@
                },
                ListenEvent::Addressed(Err(error)) => {
                    &&& res == ListenAction::Return(Err(error))
                    &&& final(publishers)@ == old(publishers)@
                },
                ListenEvent::ConnectFailed(reason) => {
                    &&& res == ListenAction::Return(Err(Error::EpicboxTungstenite(reason)))
                    &&& final(publishers)@ == old(publishers)@
                },
                ListenEvent::Connected { key, publisher } => {
                    &&& res matches ListenAction::Subscribe { wallet_mode }
                    &&& wallet_mode@ == "listener"@
                    &&& final(publishers)@ == old(publishers)@.insert(key@, publisher)
                },
                ListenEvent::Ended { key, result } => {
                    &&& res == ListenAction::Return(result)
                    &&& final(publishers)@ == old(publishers)@.remove(key@)
                },
            },
            *final(reconnections) == if event is ConnectFailed {
                *old(reconnections) + 1
            } else {
                *old(reconnections) as int
            },
    {
        match event {
            ListenEvent::Addressed(Ok(address)) => ListenAction::Connect(
                epicbox_url(config, &address),
            ),
            ListenEvent::Addressed(Err(error)) => ListenAction::Return(Err(error)),
            ListenEvent::ConnectFailed(reason) => {
                *reconnections = *reconnections + 1;
                ListenAction::Return(Err(Error::EpicboxTungstenite(reason)))
            },
            ListenEvent::Connected { key, publisher } => {
                let _ = publishers.insert(key.as_str(), publisher);
                ListenAction::Subscribe { wallet_mode: String::from_str("listener") }
            },
            ListenEvent::Ended { key, result } => {
                let _ = publishers.remove(key.as_str());
                ListenAction::Return(result)
            },
        }
    }

    /// Takes in what happened to a slate that is sent through the listener and
    /// says what is to be done. The sender that waits for the slate is
    /// registered from the moment that the destination is read until the end.
    /// The listener is the one at `from`, and the slate goes to `to`.
    pub fn send_via_listener<K, S>(
        &self,
        completions: &mut Registry<K>,
        from: &str,
        to: &str,
        slate_id: &str,
        event: RelayEvent<K, S>,
    ) -> (res: RelayAction<S>)
        requires
            old(completions).well_formed(),
        ensures
            final(completions).well_formed(),
            match event {
                RelayEvent::NotFound { looks } => if looks < LISTENER_LOOKS {
                    res matches RelayAction::Look { from: whom } && whom@ == from@
                } else {
                    res matches RelayAction::Return(result) && fails_with(
                        result,
                        listener_not_ready(),
                    )
                },
                RelayEvent::Found => res matches RelayAction::ReadDestination { to: where_to }
                    && where_to@ == to@,
                RelayEvent::Destination(Ok(_)) => res matches RelayAction::Post {
                    from: whom,
                    to: where_to,
                } && whom@ == from@ && where_to@ == to@,
                RelayEvent::Destination(Err(error)) => res == RelayAction::<S>::Return(Err(error)),
                RelayEvent::Posted(Ok(_)) => res is Wait,
                RelayEvent::Posted(Err(reason)) => res matches RelayAction::Return(result)
                    && fails_with(result, outcome_uncertain(slate_id@, reason@)),
                RelayEvent::Waited(completion) => res matches RelayAction::Return(result)
                    && match completion {
                    Completion::Finalized(slate) => result == Ok::<S, Error>(slate),
                    Completion::Failed(reason) => fails_with(
                        result,
                        finalization_failed(slate_id@, reason@),
                    ),
                    Completion::TimedOut => fails_with(result, awaiting_finalization(slate_id@)),
                    Completion::Disconnected => fails_with(result, completion_lost(slate_id@)),
                },
            },
            final(completions)@ == waiting_relays(old(completions)@, slate_id@, event),
    {
        match event {
            RelayEvent::NotFound { looks } => if looks < LISTENER_LOOKS {
                RelayAction::Look { from: String::from_str(from) }
            } else {
                RelayAction::Return(
                    Err(Error::GenericError(String::from_str("Epicbox listener is not ready"))),
                )
            },
            RelayEvent::Found => RelayAction::ReadDestination { to: String::from_str(to) },
            RelayEvent::Destination(Ok(sender)) => {
                register_send_completion(completions, slate_id, sender);
                RelayAction::Post { from: String::from_str(from), to: String::from_str(to) }
            },
            RelayEvent::Destination(Err(error)) => RelayAction::Return(Err(error)),
            RelayEvent::Posted(Ok(())) => RelayAction::Wait,
            RelayEvent::Posted(Err(reason)) => {
                remove_send_completion(completions, slate_id);
                let rest = join(" publish outcome is uncertain: ", reason.as_str());
                RelayAction::Return(Err(transaction_error(slate_id, rest.as_str())))
            },
            RelayEvent::Waited(completion) => {
                remove_send_completion(completions, slate_id);
                RelayAction::Return(
                    match completion {
                        Completion::Finalized(slate) => Ok(slate),
                        Completion::Failed(reason) => {
                            let rest = join(
                                " was published but finalization failed: ",
                                reason.as_str(),
                            );
                            Err(transaction_error(slate_id, rest.as_str()))
                        },
                        Completion::TimedOut => Err(
                            transaction_error(
                                slate_id,
                                " was published and is awaiting finalization",
                            ),
                        ),
                        Completion::Disconnected => Err(
                            transaction_error(
                                slate_id,
                                " was published but its completion channel closed unexpectedly",
                            ),
                        ),
                    },
                )
            },
        }
    }
}

impl EpicboxChannel {
    /// The way to `dest`.
    pub fn new(dest: &String, epicbox_config: Option<EpicboxConfig>) -> (res: Result<
        EpicboxChannel,
        Error,
    >)
        ensures
            res == Ok::<EpicboxChannel, Error>(EpicboxChannel { dest: *dest, epicbox_config }),
    {
        Ok(EpicboxChannel { dest: dest.clone(), epicbox_config })
    }

    /// Takes in what happened to a slate that is sent and says what is to be
    /// done. The sender that waits for the slate is registered from the
    /// beginning to the end, whatever the end. The slate goes to `dest`, and
    /// its outputs are locked as sent there.
    pub fn send<K, S>(
        &self,
        completions: &mut Registry<K>,
        slate_id: &str,
        event: SendEvent<K, S>,
    ) -> (res: SendAction<S>)
        requires
            old(completions).well_formed(),
        ensures
            final(completions).well_formed(),
            match event {
                SendEvent::Begun(_) => res is Start,
                SendEvent::Started(Ok(_)) => res == (SendAction::<S>::Publish { to: self.dest }),
                SendEvent::Started(Err(error)) => res == SendAction::<S>::Return(Err(error)),
                SendEvent::Published(Ok(_)) => res == (SendAction::<S>::LockOutputs {
                    to: self.dest,
                }),
                SendEvent::Published(Err(error)) => res == SendAction::<S>::Return(Err(error)),
                SendEvent::Locked(Ok(_)) => res is Wait,
                SendEvent::Locked(Err(error)) => res == SendAction::<S>::Return(Err(error)),
                SendEvent::Waited(completion) => res matches SendAction::Return(result)
                    && match completion {
                    Completion::Finalized(slate) => result == Ok::<S, Error>(slate),
                    Completion::Failed(reason) => result == Err::<S, Error>(
                        Error::GenericError(reason),
                    ),
                    Completion::TimedOut => fails_with(result, not_finalized(slate_id@)),
                    Completion::Disconnected => fails_with(result, channel_closed(slate_id@)),
                },
            },
            final(completions)@ == waiting_sends(old(completions)@, slate_id@, event),
    {
        let result = match event {
            SendEvent::Begun(sender) => {
                register_send_completion(completions, slate_id, sender);
                return SendAction::Start;
            },
            SendEvent::Started(Ok(())) => {
                return SendAction::Publish { to: self.dest.clone() };
            },
            SendEvent::Published(Ok(())) => {
                return SendAction::LockOutputs { to: self.dest.clone() };
            },
            SendEvent::Locked(Ok(())) => {
                return SendAction::Wait;
            },
            SendEvent::Started(Err(error)) => Err(error),
            SendEvent::Published(Err(error)) => Err(error),
            SendEvent::Locked(Err(error)) => Err(error),
            SendEvent::Waited(Completion::Finalized(slate)) => Ok(slate),
            SendEvent::Waited(Completion::Failed(reason)) => Err(Error::GenericError(reason)),
            SendEvent::Waited(Completion::TimedOut) => {
                let secs = decimal_text(EPICBOX_SEND_COMPLETION_SECS);
                let rest = join3(
                    " was not finalized and accepted by the node within ",
                    secs.as_str(),
                    " seconds",
                );
                Err(transaction_error(slate_id, rest.as_str()))
            },
            SendEvent::Waited(Completion::Disconnected) => Err(
                transaction_error(slate_id, " completion channel closed unexpectedly"),
            ),
        };
        remove_send_completion(completions, slate_id);
        SendAction::Return(result)
    }
}

/// The words that come before the reason when the server cannot be reached.
pub open spec fn connection_advice() -> Seq<char> {
    "\nCan't connect to the epicbox server!\nCheck your epic-wallet.toml settings and make sure epicbox domain is correct.\n"@
}

/// Takes in what happened while a connection is started and says what is to be done.
pub fn start_epicbox(config: &EpicboxConfig, event: StartEvent) -> (res: StartAction)
    ensures
        match event {
            StartEvent::Addressed(Ok(address)) => res matches StartAction::Connect(url) && url@
                == server_url(is_secure(*config), address.domain@, address.port),
            StartEvent::Addressed(Err(error)) => res == StartAction::Fail(error),
            StartEvent::ConnectFailed(reason) => res matches StartAction::Fail(
                Error::EpicboxTungstenite(text),
            ) && text@ == connection_advice() + reason@,
            StartEvent::Connected => res matches StartAction::Subscribe { wallet_mode }
                && wallet_mode@ == "send"@,
        },
{
    match event {
        StartEvent::Addressed(Ok(address)) => StartAction::Connect(epicbox_url(config, &address)),
        StartEvent::Addressed(Err(error)) => StartAction::Fail(error),
        StartEvent::ConnectFailed(reason) => StartAction::Fail(
            Error::EpicboxTungstenite(
                join(
                    "\nCan't connect to the epicbox server!\nCheck your epic-wallet.toml settings and make sure epicbox domain is correct.\n",
                    reason.as_str(),
                ),
            ),
        ),
        StartEvent::Connected => StartAction::Subscribe { wallet_mode: String::from_str("send") },
    }
}

/// A listener that has connected and ended again leaves the publishers of all
/// other addresses as they were, and none for its own.
pub proof fn ended_listener_leaves_nothing<P>(
    before: Map<Seq<char>, P>,
    key: Seq<char>,
    publisher: P,
    other: Seq<char>,
)
    ensures
        ({
            let after = before.insert(key, publisher).remove(key);
            &&& !after.contains_key(key)
            &&& other != key ==> (after.contains_key(other) <==> before.contains_key(other))
            &&& other != key && before.contains_key(other) ==> after[other] == before[other]
        }),
{
}

} // verus!
