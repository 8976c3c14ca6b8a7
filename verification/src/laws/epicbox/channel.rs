//! What is relied on when slates are sent and listened for.

use vstd::prelude::*;

use crate::epicbox::address::{epicbox_url, EpicboxAddress, EpicboxConfig};
use crate::epicbox::channel::{
    start_epicbox, Completion, EpicboxChannel, EpicboxListenChannel, ListenAction, ListenEvent,
    RelayAction, RelayEvent, SendAction, SendEvent, StartAction, StartEvent,
};
use crate::epicbox::error::Error;
use crate::epicbox::registry::Registry;
use crate::text::decimal;

verus! {

/// A listener connects to the server of its address, encrypted or not as the
/// configuration says.
pub proof fn listener_connects_to_its_server<P>(
    channel: EpicboxListenChannel,
    config: EpicboxConfig,
    publishers: &mut Registry<P>,
    reconnections: &mut u32,
    address: EpicboxAddress,
    url: String,
    res: ListenAction,
)
    requires
        call_ensures(epicbox_url, (&config, &address), url),
        call_ensures(
            EpicboxListenChannel::listen::<P>,
            (&channel, &config, publishers, reconnections, ListenEvent::Addressed(Ok(address))),
            res,
        ),
    ensures
        res matches ListenAction::Connect(found) && found@ == url@,
        final(publishers)@ == old(publishers)@,
        *final(reconnections) == *old(reconnections),
{
}

/// A listener without an address, or whose server cannot be reached, returns
/// with that failure and sends for nobody; a failed connection is counted.
pub proof fn failed_listener_returns<P>(
    channel: EpicboxListenChannel,
    config: EpicboxConfig,
    publishers: &mut Registry<P>,
    reconnections: &mut u32,
    event: ListenEvent<P>,
    res: ListenAction,
)
    requires
        call_ensures(
            EpicboxListenChannel::listen::<P>,
            (&channel, &config, publishers, reconnections, event),
            res,
        ),
    ensures
        event matches ListenEvent::Addressed(Err(error)) ==> {
            &&& res == ListenAction::Return(Err(error))
            &&& final(publishers)@ == old(publishers)@
            &&& *final(reconnections) == *old(reconnections)
        },
        event matches ListenEvent::ConnectFailed(reason) ==> {
            &&& res == ListenAction::Return(Err(Error::EpicboxTungstenite(reason)))
            &&& final(publishers)@ == old(publishers)@
            &&& *final(reconnections) == *old(reconnections) + 1
        },
{
}

/// From the moment that a listener is connected until its subscription ends,
/// what sends its slates is found under its address; and it returns what the
/// subscription returned. Other addresses are not touched.
pub proof fn listener_sends_while_it_is_subscribed<P>(
    channel: EpicboxListenChannel,
    config: EpicboxConfig,
    publishers: &mut Registry<P>,
    reconnections: &mut u32,
    event: ListenEvent<P>,
    res: ListenAction,
    other: Seq<char>,
)
    requires
        call_ensures(
            EpicboxListenChannel::listen::<P>,
            (&channel, &config, publishers, reconnections, event),
            res,
        ),
    ensures
        event matches ListenEvent::Connected { key, publisher } ==> {
            &&& res matches ListenAction::Subscribe { wallet_mode } && wallet_mode@ == "listener"@
            &&& final(publishers)@.contains_key(key@) && final(publishers)@[key@] == publisher
            &&& other != key@ ==> (final(publishers)@.contains_key(other) <==> old(
                publishers)@.contains_key(other))
            &&& other != key@ && old(publishers)@.contains_key(other) ==> final(publishers)@[other]
                == old(publishers)@[other]
            &&& *final(reconnections) == *old(reconnections)
        },
        event matches ListenEvent::Ended { key, result } ==> {
            &&& res == ListenAction::Return(result)
            &&& !final(publishers)@.contains_key(key@)
            &&& other != key@ ==> (final(publishers)@.contains_key(other) <==> old(
                publishers)@.contains_key(other))
            &&& other != key@ && old(publishers)@.contains_key(other) ==> final(publishers)@[other]
                == old(publishers)@[other]
            &&& *final(reconnections) == *old(reconnections)
        },
{
}

/// Whether a result is a failure in these words.
pub open spec fn failed_in<S>(result: Result<S, Error>, words: Seq<char>) -> bool {
    result matches Err(Error::GenericError(text)) && text@ =~= words
}

/// A slate goes through the listener of its sender to its destination. The
/// listener is looked for a hundred times before the sender gives up.
pub proof fn slate_is_relayed_from_sender_to_destination<K, S>(
    channel: EpicboxListenChannel,
    completions: &mut Registry<K>,
    from: &str,
    to: &str,
    slate_id: &str,
    event: RelayEvent<K, S>,
    res: RelayAction<S>,
)
    requires
        call_ensures(
            EpicboxListenChannel::send_via_listener::<K, S>,
            (&channel, completions, from, to, slate_id, event),
            res,
        ),
    ensures
        event matches RelayEvent::NotFound { looks } ==> {
            &&& looks < 100 ==> (res matches RelayAction::Look { from: whom } && whom@ == from@)
            &&& looks >= 100 ==> (res matches RelayAction::Return(result) && failed_in(
                result,
                "Epicbox listener is not ready"@,
            ))
        },
        event is Found ==> (res matches RelayAction::ReadDestination { to: place } && place@ == to@),
        event matches RelayEvent::Destination(Ok(_)) ==> (res matches RelayAction::Post {
            from: whom,
            to: place,
        } && whom@ == from@ && place@ == to@),
        event matches RelayEvent::Destination(Err(error)) ==> res == RelayAction::<S>::Return(
            Err(error),
        ),
        event matches RelayEvent::Posted(Ok(_)) ==> res is Wait,
{
}

/// The slate that comes back is returned; any other end is a failure that
/// names the slate and says that it was published, or may have been.
pub proof fn relayed_slate_comes_back_or_is_spoken_of<K, S>(
    channel: EpicboxListenChannel,
    completions: &mut Registry<K>,
    from: &str,
    to: &str,
    slate_id: &str,
    event: RelayEvent<K, S>,
    res: RelayAction<S>,
)
    requires
        call_ensures(
            EpicboxListenChannel::send_via_listener::<K, S>,
            (&channel, completions, from, to, slate_id, event),
            res,
        ),
    ensures
        event matches RelayEvent::Posted(Err(reason)) ==> (res matches RelayAction::Return(result)
            && failed_in(
            result,
            "Epicbox transaction "@ + slate_id@ + " publish outcome is uncertain: "@ + reason@,
        )),
        event matches RelayEvent::Waited(Completion::Finalized(slate)) ==> res
            == RelayAction::<S>::Return(Ok(slate)),
        event matches RelayEvent::Waited(Completion::Failed(reason)) ==> (
        res matches RelayAction::Return(result) && failed_in(
            result,
            "Epicbox transaction "@ + slate_id@ + " was published but finalization failed: "@
                + reason@,
        )),
        event matches RelayEvent::Waited(Completion::TimedOut) ==> (
        res matches RelayAction::Return(result) && failed_in(
            result,
            "Epicbox transaction "@ + slate_id@ + " was published and is awaiting finalization"@,
        )),
        event matches RelayEvent::Waited(Completion::Disconnected) ==> (
        res matches RelayAction::Return(result) && failed_in(
            result,
            "Epicbox transaction "@ + slate_id@
                + " was published but its completion channel closed unexpectedly"@,
        )),
{
    let start = "Epicbox transaction "@ + slate_id@;
    let uncertain = " publish outcome is uncertain: "@;
    let failed = " was published but finalization failed: "@;
    if let RelayEvent::Posted(Err(reason)) = event {
        assert(start + (uncertain + reason@) =~= start + uncertain + reason@);
    }
    if let RelayEvent::Waited(Completion::Failed(reason)) = event {
        assert(start + (failed + reason@) =~= start + failed + reason@);
    }
}

/// The sender that waits for a slate is found under its identifier from the
/// moment that the destination is read until posting fails or waiting ends, and
/// the senders of other slates are not touched.
pub proof fn relaying_sender_waits_until_the_end<K, S>(
    channel: EpicboxListenChannel,
    completions: &mut Registry<K>,
    from: &str,
    to: &str,
    slate_id: &str,
    event: RelayEvent<K, S>,
    res: RelayAction<S>,
    other: Seq<char>,
)
    requires
        call_ensures(
            EpicboxListenChannel::send_via_listener::<K, S>,
            (&channel, completions, from, to, slate_id, event),
            res,
        ),
    ensures
        event matches RelayEvent::Destination(Ok(sender)) ==> final(completions)@.contains_key(
            slate_id@,
        ) && final(completions)@[slate_id@] == sender,
        event is Waited || (event is Posted && event->Posted_0 is Err) ==> !final(
            completions)@.contains_key(slate_id@),
        event is NotFound || event is Found || (event is Destination && event->Destination_0 is Err)
            || (event is Posted && event->Posted_0 is Ok) ==> final(completions)@
            == old(completions)@,
        other != slate_id@ ==> (final(completions)@.contains_key(other) <==> old(
            completions)@.contains_key(other)),
        other != slate_id@ && old(completions)@.contains_key(other) ==> final(completions)@[other]
            == old(completions)@[other],
{
}

/// A channel leads to the destination and has the configuration that it was made with.
pub proof fn channel_leads_to_its_destination(
    dest: String,
    epicbox_config: Option<EpicboxConfig>,
    res: Result<EpicboxChannel, Error>,
)
    requires
        call_ensures(EpicboxChannel::new, (&dest, epicbox_config), res),
    ensures
        res matches Ok(channel) && channel.dest@ == dest@ && channel.epicbox_config
            == epicbox_config,
{
}

/// A slate is given to the server for the destination once the connection is
/// started; its outputs are locked, as sent there, once the server has it; and
/// then the sender waits. A step that fails ends it.
pub proof fn slate_is_published_before_outputs_are_locked<K, S>(
    channel: EpicboxChannel,
    completions: &mut Registry<K>,
    slate_id: &str,
    event: SendEvent<K, S>,
    res: SendAction<S>,
)
    requires
        call_ensures(
            EpicboxChannel::send::<K, S>,
            (&channel, completions, slate_id, event),
            res,
        ),
    ensures
        event is Begun ==> res is Start,
        event matches SendEvent::Started(Ok(_)) ==> (res matches SendAction::Publish { to } && to@
            == channel.dest@),
        event matches SendEvent::Published(Ok(_)) ==> (res matches SendAction::LockOutputs { to }
            && to@ == channel.dest@),
        event matches SendEvent::Locked(Ok(_)) ==> res is Wait,
        event matches SendEvent::Started(Err(error)) ==> res == SendAction::<S>::Return(Err(error)),
        event matches SendEvent::Published(Err(error)) ==> res == SendAction::<S>::Return(
            Err(error),
        ),
        event matches SendEvent::Locked(Err(error)) ==> res == SendAction::<S>::Return(Err(error)),
{
}

/// The slate that comes back is returned; a failure to finalize it is returned
/// in its own words, and a slate that does not come back is named.
pub proof fn sent_slate_comes_back_or_is_spoken_of<K, S>(
    channel: EpicboxChannel,
    completions: &mut Registry<K>,
    slate_id: &str,
    completion: Completion<S>,
    res: SendAction<S>,
)
    requires
        call_ensures(
            EpicboxChannel::send::<K, S>,
            (&channel, completions, slate_id, SendEvent::<K, S>::Waited(completion)),
            res,
        ),
    ensures
        completion matches Completion::Finalized(slate) ==> res == SendAction::<S>::Return(
            Ok(slate),
        ),
        completion matches Completion::Failed(reason) ==> res == SendAction::<S>::Return(
            Err(Error::GenericError(reason)),
        ),
        completion is TimedOut ==> (res matches SendAction::Return(result) && failed_in(
            result,
            "Epicbox transaction "@ + slate_id@
                + " was not finalized and accepted by the node within "@ + "90"@ + " seconds"@,
        )),
        completion is Disconnected ==> (res matches SendAction::Return(result) && failed_in(
            result,
            "Epicbox transaction "@ + slate_id@ + " completion channel closed unexpectedly"@,
        )),
{
    reveal_strlit("90");
    reveal_with_fuel(decimal, 3);
    assert(decimal(90) =~= "90"@);
}

/// The sender that waits for a slate is found under its identifier from the
/// beginning to the end, whatever the end, and no other sender is touched.
pub proof fn sender_waits_until_the_end<K, S>(
    channel: EpicboxChannel,
    completions: &mut Registry<K>,
    slate_id: &str,
    event: SendEvent<K, S>,
    res: SendAction<S>,
    other: Seq<char>,
)
    requires
        call_ensures(
            EpicboxChannel::send::<K, S>,
            (&channel, completions, slate_id, event),
            res,
        ),
    ensures
        event matches SendEvent::Begun(sender) ==> final(completions)@.contains_key(slate_id@)
            && final(completions)@[slate_id@] == sender,
        res is Return ==> !final(completions)@.contains_key(slate_id@),
        !(event is Begun) && !(res is Return) ==> final(completions)@ == old(completions)@,
        other != slate_id@ ==> (final(completions)@.contains_key(other) <==> old(
            completions)@.contains_key(other)),
        other != slate_id@ && old(completions)@.contains_key(other) ==> final(completions)@[other]
            == old(completions)@[other],
{
}

/// A connection of a sender goes to the server of its address, and subscribes
/// to send; a server that cannot be reached is a failure with advice and the reason.
pub proof fn sender_connects_to_its_server(
    config: EpicboxConfig,
    address: EpicboxAddress,
    url: String,
    reason: String,
    error: Error,
    addressed: StartAction,
    not_addressed: StartAction,
    not_connected: StartAction,
    connected: StartAction,
)
    requires
        call_ensures(epicbox_url, (&config, &address), url),
        call_ensures(start_epicbox, (&config, StartEvent::Addressed(Ok(address))), addressed),
        call_ensures(start_epicbox, (&config, StartEvent::Addressed(Err(error))), not_addressed),
        call_ensures(start_epicbox, (&config, StartEvent::ConnectFailed(reason)), not_connected),
        call_ensures(start_epicbox, (&config, StartEvent::Connected), connected),
    ensures
        addressed matches StartAction::Connect(found) && found@ == url@,
        not_addressed == StartAction::Fail(error),
        not_connected matches StartAction::Fail(Error::EpicboxTungstenite(text)) && text@
            == "\nCan't connect to the epicbox server!\nCheck your epic-wallet.toml settings and make sure epicbox domain is correct.\n"@
            + reason@,
        connected matches StartAction::Subscribe { wallet_mode } && wallet_mode@ == "send"@,
{
}

} // verus!
