//! What is relied on when slates come in, and of what waits for them.

use vstd::prelude::*;

use crate::epicbox::address::EpicboxConfig;
use crate::epicbox::controller::{
    complete_send, on_slate, posting_route, register_send_completion, remove_send_completion,
    Container, EpicboxController, ListenerInterface, SlateAction, SlateEvent, SlateReply, SlateShape,
    TorConfig,
};
use crate::epicbox::error::Error;
use crate::epicbox::registry::Registry;

verus! {

/// A slate that some participant has not filled in is received, as sent from
/// the address that it came from, where it has inputs, and left alone where it
/// has none; a slate that all have filled in is finalized.
pub proof fn open_slate_is_received_and_full_one_finalized<P>(
    controller: EpicboxController<P>,
    address: Option<String>,
    shape: SlateShape,
    res: SlateAction,
)
    requires
        call_ensures(
            EpicboxController::<P>::process_incoming_slate,
            (&controller, address, SlateEvent::Arrived(shape)),
            res,
        ),
    ensures
        shape.participant_data >= shape.num_participants ==> res is Finalize,
        shape.participant_data < shape.num_participants && shape.has_inputs ==> res == (
        SlateAction::Receive { address }),
        shape.participant_data < shape.num_participants && !shape.has_inputs ==> res
            == SlateAction::Done(Ok(false)),
{
}

/// A slate that was received is not final; one that could not be is a failure.
pub proof fn received_slate_is_not_final<P>(
    controller: EpicboxController<P>,
    address: Option<String>,
    reason: String,
    error: Error,
    received: SlateAction,
    not_received: SlateAction,
    no_wallet: SlateAction,
)
    requires
        call_ensures(
            EpicboxController::<P>::process_incoming_slate,
            (&controller, address, SlateEvent::Received(Ok(()))),
            received,
        ),
        call_ensures(
            EpicboxController::<P>::process_incoming_slate,
            (&controller, address, SlateEvent::Received(Err(reason))),
            not_received,
        ),
        call_ensures(
            EpicboxController::<P>::process_incoming_slate,
            (&controller, address, SlateEvent::WalletMissing(error)),
            no_wallet,
        ),
    ensures
        received == SlateAction::Done(Ok(false)),
        not_received == SlateAction::Done(Err(Error::EpicboxReceiveTx(reason))),
        no_wallet == SlateAction::Done(Err(error)),
{
}

/// A final transaction is posted over Tor, to one of the addresses of the node,
/// where Tor is in use and there is one; where that fails, and in all other
/// cases, to the node. Once it is posted the slate is final.
pub proof fn final_transaction_is_posted<P>(
    controller: EpicboxController<P>,
    address: Option<String>,
    onions: Vec<String>,
    error: Error,
    finalized: SlateAction,
    not_finalized: SlateAction,
    over_tor: SlateAction,
    not_over_tor: SlateAction,
    posted: SlateAction,
    not_posted: SlateAction,
)
    requires
        call_ensures(
            EpicboxController::<P>::process_incoming_slate,
            (&controller, address, SlateEvent::Finalized(Ok(onions))),
            finalized,
        ),
        call_ensures(
            EpicboxController::<P>::process_incoming_slate,
            (&controller, address, SlateEvent::Finalized(Err(error))),
            not_finalized,
        ),
        call_ensures(
            EpicboxController::<P>::process_incoming_slate,
            (&controller, address, SlateEvent::PostedToTor(true)),
            over_tor,
        ),
        call_ensures(
            EpicboxController::<P>::process_incoming_slate,
            (&controller, address, SlateEvent::PostedToTor(false)),
            not_over_tor,
        ),
        call_ensures(
            EpicboxController::<P>::process_incoming_slate,
            (&controller, address, SlateEvent::Posted(Ok(()))),
            posted,
        ),
        call_ensures(
            EpicboxController::<P>::process_incoming_slate,
            (&controller, address, SlateEvent::Posted(Err(error))),
            not_posted,
        ),
    ensures
        ({
            let by_tor = controller.tor_config.use_tor_listener && onions@.len() > 0;
            &&& by_tor ==> (finalized matches SlateAction::PostToTor(onion) && onions@.contains(
                onion,
            ))
            &&& !by_tor ==> finalized is Post
        }),
        not_finalized == SlateAction::Done(Err(error)),
        over_tor == SlateAction::Done(Ok(true)),
        not_over_tor is Post,
        posted == SlateAction::Done(Ok(true)),
        not_posted == SlateAction::Done(Err(error)),
{
}

/// Of the addresses that there are in order, the first is taken.
pub proof fn first_onion_address_is_taken(
    onions: Vec<String>,
    use_tor_listener: bool,
    res: SlateAction,
)
    requires
        call_ensures(posting_route, (&onions, use_tor_listener), res),
    ensures
        use_tor_listener && onions@.len() > 0 ==> res == SlateAction::PostToTor(onions@[0]),
        !use_tor_listener || onions@.len() == 0 ==> res is Post,
{
}

/// A controller keeps what it is made of.
pub proof fn controller_keeps_its_parts<P>(
    publisher: P,
    reconnections: u32,
    tor_config: TorConfig,
    res: Result<EpicboxController<P>, Error>,
)
    requires
        call_ensures(EpicboxController::<P>::new, (publisher, reconnections, tor_config), res),
    ensures
        res matches Ok(controller) && controller.publisher == publisher
            && controller.reconnections == reconnections && controller.tor_config == tor_config,
{
}

/// A slate that is not final goes back to where it came from, and the senders
/// wait on. The sender that waits for a slate is given the final slate or the
/// failure, and waits no longer; other senders do.
pub proof fn outcome_goes_to_the_waiting_sender<K, A>(
    completions: &mut Registry<K>,
    slate_id: &str,
    from: A,
    outcome: Result<bool, Error>,
    res: SlateReply<K, A>,
    other: Seq<char>,
)
    requires
        call_ensures(on_slate::<K, A>, (completions, slate_id, from, outcome), res),
    ensures
        ({
            let waits = if old(completions)@.contains_key(slate_id@) {
                Some(old(completions)@[slate_id@])
            } else {
                None
            };
            &&& outcome matches Ok(done) ==> (!done ==> res == (SlateReply::<K, A>::SendBack {
                to: from,
            }) && final(completions)@ == old(completions)@)
            &&& outcome matches Ok(done) ==> (done ==> res == SlateReply::<K, A>::Complete(waits)
                && !final(completions)@.contains_key(slate_id@))
            &&& outcome matches Err(error) ==> res == SlateReply::<K, A>::Fail(waits, error)
                && !final(completions)@.contains_key(slate_id@)
        }),
        other != slate_id@ ==> (final(completions)@.contains_key(other) <==> old(
            completions)@.contains_key(other)),
        other != slate_id@ && old(completions)@.contains_key(other) ==> final(completions)@[other]
            == old(completions)@[other],
{
}

/// A sender that is registered is found, in the place of one before it.
pub proof fn registered_sender_is_found<K>(
    completions: &mut Registry<K>,
    slate_id: &str,
    sender: K,
    other: Seq<char>,
)
    requires
        call_ensures(register_send_completion::<K>, (completions, slate_id, sender), ()),
    ensures
        final(completions)@.contains_key(slate_id@),
        final(completions)@[slate_id@] == sender,
        other != slate_id@ ==> (final(completions)@.contains_key(other) <==> old(
            completions)@.contains_key(other)),
        other != slate_id@ && old(completions)@.contains_key(other) ==> final(completions)@[other]
            == old(completions)@[other],
{
}

/// A sender that is removed is not found.
pub proof fn removed_sender_is_not_found<K>(
    completions: &mut Registry<K>,
    slate_id: &str,
    other: Seq<char>,
)
    requires
        call_ensures(remove_send_completion::<K>, (completions, slate_id), ()),
    ensures
        !final(completions)@.contains_key(slate_id@),
        other != slate_id@ ==> (final(completions)@.contains_key(other) <==> old(
            completions)@.contains_key(other)),
        other != slate_id@ && old(completions)@.contains_key(other) ==> final(completions)@[other]
            == old(completions)@[other],
{
}

/// The sender that waits is handed out once.
pub proof fn waiting_sender_is_handed_out_once<K>(
    completions: &mut Registry<K>,
    slate_id: &str,
    res: Option<K>,
)
    requires
        call_ensures(complete_send::<K>, (completions, slate_id), res),
    ensures
        res is Some <==> old(completions)@.contains_key(slate_id@),
        res matches Some(sender) ==> sender == old(completions)@[slate_id@],
        !final(completions)@.contains_key(slate_id@),
{
}

/// What was put in last is found, what was taken out is not, and other keys are
/// not touched; what was there before is handed back.
pub proof fn registry_keeps_the_last_value<V>(
    registry: &mut Registry<V>,
    key: &str,
    value: V,
    previous: Option<V>,
    other: Seq<char>,
)
    requires
        call_ensures(Registry::<V>::insert, (registry, key, value), previous),
    ensures
        final(registry)@.contains_key(key@),
        final(registry)@[key@] == value,
        previous is Some <==> old(registry)@.contains_key(key@),
        previous matches Some(before) ==> before == old(registry)@[key@],
        other != key@ ==> (final(registry)@.contains_key(other) <==> old(registry)@.contains_key(
            other,
        )),
        other != key@ && old(registry)@.contains_key(other) ==> final(registry)@[other]
            == old(registry)@[other],
{
}

/// Taking out hands out the value of the key and touches no other.
pub proof fn registry_hands_out_the_value<V>(
    registry: &mut Registry<V>,
    key: &str,
    res: Option<V>,
    other: Seq<char>,
)
    requires
        call_ensures(Registry::<V>::remove, (registry, key), res),
    ensures
        !final(registry)@.contains_key(key@),
        res is Some <==> old(registry)@.contains_key(key@),
        res matches Some(value) ==> value == old(registry)@[key@],
        other != key@ ==> (final(registry)@.contains_key(other) <==> old(registry)@.contains_key(
            other,
        )),
        other != key@ && old(registry)@.contains_key(other) ==> final(registry)@[other]
            == old(registry)@[other],
{
}

/// A new registry holds nothing, and looking for a value finds the one that is there.
pub proof fn registry_finds_what_is_there<V>(
    fresh: Registry<V>,
    registry: Registry<V>,
    key: &str,
    res: Option<&V>,
)
    requires
        call_ensures(Registry::<V>::new, (), fresh),
        call_ensures(Registry::<V>::get, (&registry, key), res),
    ensures
        !fresh@.contains_key(key@),
        res is Some <==> registry@.contains_key(key@),
        res matches Some(value) ==> *value == registry@[key@],
{
}

/// The listener that was put in is the one that is found, and a container
/// without one names the interface.
pub proof fn container_finds_its_listener<L>(
    config: EpicboxConfig,
    fresh: Container<L>,
    empty: Result<&L, Error>,
    container: &mut Container<L>,
    listener: L,
    filled: Container<L>,
    found: Result<&L, Error>,
)
    requires
        call_ensures(Container::<L>::new, (config,), fresh),
        call_ensures(Container::<L>::listener, (&fresh, ListenerInterface::Epicbox), empty),
        call_ensures(
            Container::<L>::insert,
            (container, ListenerInterface::Epicbox, listener),
            (),
        ),
        filled == *final(container),
        call_ensures(Container::<L>::listener, (&filled, ListenerInterface::Epicbox), found),
    ensures
        fresh.config == config,
        fresh.account@ == "default"@,
        empty matches Err(Error::NoListener(name)) && name@ == "Epicbox"@,
        found matches Ok(same) && *same == listener,
        filled.config == old(container).config,
        filled.account == old(container).account,
{
}

} // verus!
