//! What the wallet does with the slates that come in.

use vstd::prelude::*;

use rand::seq::SliceRandom;

use crate::epicbox::address::{EpicboxAddress, EpicboxConfig};
use crate::epicbox::error::Error;
use crate::epicbox::registry::Registry;

verus! {

/// Why a subscription ended.
pub enum CloseReason {
    /// It was closed.
    Normal,
    /// It broke.
    Abnormal(Error),
}

/// The kinds of listener.
#[derive(Copy, Clone, Eq, PartialEq, Debug, Hash, Structural)]
pub enum ListenerInterface {
    /// An epicbox mailbox.
    Epicbox,
}

impl ListenerInterface {
    /// The name of the interface.
    pub fn name(&self) -> (res: &'static str)
        ensures
            res@ == "Epicbox"@,
    {
        "Epicbox"
    }
}

/// Something that receives slates, and sends slates of type `S`.
pub trait Listener<S>: Sized {
    /// The kind of listener.
    fn interface(&self) -> ListenerInterface;

    /// The address that it listens at.
    fn address(&self) -> String;

    /// Sends a slate.
    fn publish(&self, slate: &S, to: &String) -> Result<(), Error>;

    /// Stops listening.
    fn stop(self) -> Result<(), Error>;
}

/// Something that sends slates of type `S`.
pub trait Publisher<S> {
    /// Sends a slate, and closes the connection after it where that is asked for.
    fn post_slate(&self, slate: &S, to: &EpicboxAddress, close_connection: bool) -> Result<
        (),
        Error,
    >;
}

/// Something that takes slates of type `S` with a proof of payment of type `P`.
pub trait SubscriptionHandler<S, P> {
    /// Takes a slate.
    fn on_slate(&self, from: &EpicboxAddress, slate: &S, payment: Option<P>);

    /// Takes the end of the subscription.
    fn on_close(&self, reason: CloseReason);
}

/// The listeners of an account, at most one for each interface.
pub struct Container<L> {
    pub config: EpicboxConfig,
    pub account: String,
    pub listeners: Registry<L>,
}

impl<L> Container<L> {
    /// Whether no interface has two listeners.
    pub open spec fn well_formed(&self) -> bool {
        self.listeners.well_formed()
    }

    /// The listener of an interface, if it has one.
    pub open spec fn has(&self, interface: ListenerInterface) -> Option<L> {
        if self.listeners@.contains_key("Epicbox"@) {
            Some(self.listeners@["Epicbox"@])
        } else {
            None
        }
    }

    /// A container without listeners, for the default account.
    pub fn new(config: EpicboxConfig) -> (res: Self)
        ensures
            res.well_formed(),
            res.config == config,
            res.account@ == "default"@,
            res.listeners@ == Map::<Seq<char>, L>::empty(),
    {
        Container { config, account: String::from_str("default"), listeners: Registry::new() }
    }

    /// Puts in the listener of an interface.
    pub fn insert(&mut self, interface: ListenerInterface, listener: L)
        requires
            old(self).well_formed(),
        ensures
            final(self).well_formed(),
            final(self).config == old(self).config,
            final(self).account == old(self).account,
            final(self).listeners@ == old(self).listeners@.insert("Epicbox"@, listener),
    {
        let _ = self.listeners.insert(interface.name(), listener);
    }

    /// The listener of an interface; that there is none is an error that names the interface.
    pub fn listener(&self, interface: ListenerInterface) -> (res: Result<&L, Error>)
        requires
            self.well_formed(),
        ensures
            match self.has(interface) {
                Some(listener) => res matches Ok(found) && *found == listener,
                None => res matches Err(Error::NoListener(name)) && name@ == "Epicbox"@,
            },
    {
        match self.listeners.get(interface.name()) {
            Some(listener) => Ok(listener),
            None => Err(Error::NoListener(String::from_str(interface.name()))),
        }
    }
}

/// The listener that was put in last is the one that is found, and before any
/// was put in there is none.
pub proof fn inserted_listener_is_found<L>(
    before: Container<L>,
    after: Container<L>,
    interface: ListenerInterface,
    listener: L,
)
    requires
        after.listeners@ == before.listeners@.insert("Epicbox"@, listener),
    ensures
        after.has(interface) == Some(listener),
        before.listeners@ == Map::<Seq<char>, L>::empty() ==> before.has(interface) is None,
{
}

/// Whether transactions are posted over Tor.
pub struct TorConfig {
    pub use_tor_listener: bool,
}

/// What decides what is done with a slate that came in.
pub struct SlateShape {
    /// How many participants the slate is for.
    pub num_participants: usize,
    /// How many participants have filled in their part.
    pub participant_data: usize,
    /// Whether the transaction has inputs.
    pub has_inputs: bool,
}

/// What happened to a slate outside.
pub enum SlateEvent {
    /// It came in.
    Arrived(SlateShape),
    /// The wallet that is to receive it could not be had.
    WalletMissing(Error),
    /// The wallet received it, or the reason why not.
    Received(Result<(), String>),
    /// The wallet finalized it and the node gave these onion addresses, or it failed.
    Finalized(Result<Vec<String>, Error>),
    /// Whether the transaction was posted over Tor.
    PostedToTor(bool),
    /// The transaction was posted, or it failed.
    Posted(Result<(), Error>),
}

/// What is to be done with a slate outside.
pub enum SlateAction {
    /// Let the wallet receive it, as sent from this address.
    Receive { address: Option<String> },
    /// Let the wallet finalize it.
    Finalize,
    /// Post the transaction to this onion address.
    PostToTor(String),
    /// Post the transaction to the node.
    Post,
    /// Nothing more: whether the slate is final, or the failure.
    Done(Result<bool, Error>),
}

/// Whether some participant has not filled in the slate.
pub open spec fn is_open(shape: SlateShape) -> bool {
    shape.num_participants > shape.participant_data
}

/// `rand::seq::SliceRandom::shuffle` with `rand::rng` puts the items in some
/// order. Which one is left to chance.
#[verifier::external_body]
fn shuffle(items: &mut Vec<String>)
    ensures
        final(items)@.to_multiset() == old(items)@.to_multiset(),
{
    items.shuffle(&mut rand::rng());
}

/// Where a final transaction is posted: to the first onion address where Tor
/// is in use and there is one, else to the node.
pub fn posting_route(onion_addresses: &Vec<String>, use_tor_listener: bool) -> (res: SlateAction)
    ensures
        res == (if use_tor_listener && onion_addresses@.len() > 0 {
            SlateAction::PostToTor(onion_addresses@[0])
        } else {
            SlateAction::Post
        }),
{
    if use_tor_listener && onion_addresses.len() > 0 {
        SlateAction::PostToTor(onion_addresses[0].clone())
    } else {
        SlateAction::Post
    }
}

/// The handler of the slates that come in; it answers with `publisher`.
pub struct EpicboxController<P> {
    pub publisher: P,
    pub reconnections: u32,
    pub tor_config: TorConfig,
}

impl<P> EpicboxController<P> {
    /// A handler that answers with `publisher`.
    pub fn new(publisher: P, reconnections: u32, tor_config: TorConfig) -> (res: Result<Self, Error>)
        ensures
            res == Ok::<Self, Error>(EpicboxController { publisher, reconnections, tor_config }),
    {
        Ok(EpicboxController { publisher, reconnections, tor_config })
    }

    /// Takes in what happened to a slate and says what is to be done. A slate
    /// that is still open is received, unless it has no inputs; one that came
    /// back is finalized and its transaction posted, to the node where Tor
    /// fails. `address` is where the slate came from. Which of the onion
    /// addresses is taken is left to chance.
    pub fn process_incoming_slate(&self, address: Option<String>, event: SlateEvent) -> (res:
        SlateAction)
        ensures
            match event {
                SlateEvent::Arrived(shape) => if !is_open(shape) {
                    res is Finalize
                } else if shape.has_inputs {
                    res == (SlateAction::Receive { address })
                } else {
                    res == SlateAction::Done(Ok(false))
                },
                SlateEvent::WalletMissing(error) => res == SlateAction::Done(Err(error)),
                SlateEvent::Received(Ok(_)) => res == SlateAction::Done(Ok(false)),
                SlateEvent::Received(Err(reason)) => res == SlateAction::Done(
                    Err(Error::EpicboxReceiveTx(reason)),
                ),
                SlateEvent::Finalized(Ok(addresses)) => if self.tor_config.use_tor_listener
                    && addresses@.len() > 0 {
                    res matches SlateAction::PostToTor(onion) && addresses@.contains(onion)
                } else {
                    res is Post
                },
                SlateEvent::Finalized(Err(error)) => res == SlateAction::Done(Err(error)),
                SlateEvent::PostedToTor(posted) => if posted {
                    res == SlateAction::Done(Ok(true))
                } else {
                    res is Post
                },
                SlateEvent::Posted(Ok(_)) => res == SlateAction::Done(Ok(true)),
                SlateEvent::Posted(Err(error)) => res == SlateAction::Done(Err(error)),
            },
    {
        match event {
            SlateEvent::Arrived(shape) => if shape.num_participants <= shape.participant_data {
                SlateAction::Finalize
            } else if shape.has_inputs {
                SlateAction::Receive { address }
            } else {
                SlateAction::Done(Ok(false))
            },
            SlateEvent::WalletMissing(error) => SlateAction::Done(Err(error)),
            SlateEvent::Received(Ok(())) => SlateAction::Done(Ok(false)),
            SlateEvent::Received(Err(reason)) => SlateAction::Done(
                Err(Error::EpicboxReceiveTx(reason)),
            ),
            SlateEvent::Finalized(Ok(addresses)) => {
                broadcast use vstd::seq_lib::group_to_multiset_ensures;

                let mut onion_addresses = addresses;
                shuffle(&mut onion_addresses);
                let action = posting_route(&onion_addresses, self.tor_config.use_tor_listener);
                proof {
                    assert(addresses@.to_multiset().len() == onion_addresses@.to_multiset().len());
                    if onion_addresses@.len() > 0 {
                        let first = onion_addresses@[0];
                        assert(onion_addresses@.contains(first));
                        assert(onion_addresses@.to_multiset().count(first) > 0);
                        assert(addresses@.to_multiset().count(first) > 0);
                    }
                }
                action
            },
            SlateEvent::Finalized(Err(error)) => SlateAction::Done(Err(error)),
            SlateEvent::PostedToTor(posted) => if posted {
                SlateAction::Done(Ok(true))
            } else {
                SlateAction::Post
            },
            SlateEvent::Posted(Ok(())) => SlateAction::Done(Ok(true)),
            SlateEvent::Posted(Err(error)) => SlateAction::Done(Err(error)),
        }
    }
}

/// What is done about a slate when it has been processed; `K` is the sender
/// that waits for it and `A` an address.
pub enum SlateReply<K, A> {
    /// Send the slate back to where it came from; that must not fail.
    SendBack { to: A },
    /// Give the final slate to the sender that waits for it, if one does.
    Complete(Option<K>),
    /// Give the failure to the sender that waits for the slate, if one does.
    Fail(Option<K>, Error),
}

/// Registers the sender that waits for a slate, in the place of one that waited for the same slate.
pub fn register_send_completion<K>(completions: &mut Registry<K>, slate_id: &str, sender: K)
    requires
        old(completions).well_formed(),
    ensures
        final(completions).well_formed(),
        final(completions)@ == old(completions)@.insert(slate_id@, sender),
{
    let _ = completions.insert(slate_id, sender);
}

/// Removes the sender that waits for a slate.
pub fn remove_send_completion<K>(completions: &mut Registry<K>, slate_id: &str)
    requires
        old(completions).well_formed(),
    ensures
        final(completions).well_formed(),
        final(completions)@ == old(completions)@.remove(slate_id@),
{
    let _ = completions.remove(slate_id);
}

/// The sender under `slate_id`, if one waits.
pub open spec fn waiting<K>(completions: Registry<K>, slate_id: Seq<char>) -> Option<K> {
    if completions@.contains_key(slate_id) {
        Some(completions@[slate_id])
    } else {
        None
    }
}

/// Takes out the sender that waits for a slate, to be given the outcome. No
/// sender is given two outcomes.
pub fn complete_send<K>(completions: &mut Registry<K>, slate_id: &str) -> (res: Option<K>)
    requires
        old(completions).well_formed(),
    ensures
        final(completions).well_formed(),
        final(completions)@ == old(completions)@.remove(slate_id@),
        res == waiting(*old(completions), slate_id@),
{
    completions.remove(slate_id)
}

/// Says what is to be done about a slate from `from` that has been processed:
/// one that is not final goes back there, a final one and a failure go to the
/// sender that waits.
pub fn on_slate<K, A>(
    completions: &mut Registry<K>,
    slate_id: &str,
    from: A,
    outcome: Result<bool, Error>,
) -> (res: SlateReply<K, A>)
    requires
        old(completions).well_formed(),
    ensures
        final(completions).well_formed(),
        match outcome {
            Ok(false) => res == (SlateReply::<K, A>::SendBack { to: from }) && final(completions)@
                == old(completions)@,
            Ok(true) => res == SlateReply::<K, A>::Complete(waiting(*old(completions), slate_id@))
                && final(completions)@ == old(completions)@.remove(slate_id@),
            Err(error) => res == SlateReply::<K, A>::Fail(waiting(*old(completions), slate_id@), error)
                && final(completions)@ == old(completions)@.remove(slate_id@),
        },
{
    match outcome {
        Ok(is_finalized) => if is_finalized {
            SlateReply::Complete(complete_send(completions, slate_id))
        } else {
            SlateReply::SendBack { to: from }
        },
        Err(error) => SlateReply::Fail(complete_send(completions, slate_id), error),
    }
}

/// An outcome reaches the sender that was registered last for the slate, once:
/// the second time no sender is found, and the senders of other slates stay.
pub proof fn outcome_is_delivered_once<K>(
    registered: Registry<K>,
    delivered: Registry<K>,
    slate_id: Seq<char>,
    other: Seq<char>,
)
    requires
        delivered@ == registered@.remove(slate_id),
    ensures
        waiting(delivered, slate_id) is None,
        other != slate_id ==> waiting(delivered, other) == waiting(registered, other),
{
}

} // verus!
