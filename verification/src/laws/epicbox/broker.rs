//! What is relied on in the conversation with the epicbox server.

use vstd::prelude::*;

use crate::epicbox::broker::{
    client_details, close_after_post, close_reason, made_send, post_slate, subscribe_request,
    subscription_result, BrokerAction, BrokerEnd, BrokerEvent, EpicboxBroker, Incoming,
    ProtocolRequest, ProtocolRequestV2, ProtocolResponseV2, Stage, UnsignedPost,
    NODE_SYNC_PAUSE_SECS,
};
use crate::epicbox::controller::CloseReason;
use crate::epicbox::error::Error;

verus! {

/// Whether all that a broker knows, but for what it waits for, is as it was.
pub open spec fn knows_the_same(before: EpicboxBroker, after: EpicboxBroker) -> bool {
    before.first_run == after.first_run && before.challenge == after.challenge
        && before.reconnections == after.reconnections
}

/// A subscription begins with a look at the node, without a challenge and with
/// the client details still to be sent.
pub proof fn subscription_begins_at_the_node(reconnections: u32, res: EpicboxBroker)
    requires
        call_ensures(EpicboxBroker::new, (reconnections,), res),
    ensures
        res.stage is CheckingNode,
        res.first_run,
        res.challenge is None,
        res.reconnections == reconnections,
{
}

/// Messages are read only while the node is synced; until then the broker
/// pauses and stays as it is.
pub proof fn messages_wait_for_the_node(broker: &mut EpicboxBroker, synced: bool, res: BrokerAction)
    requires
        old(broker).stage is CheckingNode,
        call_ensures(EpicboxBroker::subscribe, (broker, BrokerEvent::NodeSynced(synced)), res),
    ensures
        knows_the_same(*old(broker), *final(broker)),
        synced ==> res is Read && final(broker).stage is Reading,
        !synced ==> res is Pause && final(broker).stage is CheckingNode,
        NODE_SYNC_PAUSE_SECS == 5,
{
}

/// A connection that breaks is counted and ends the subscription.
pub proof fn broken_connection_is_counted(broker: &mut EpicboxBroker, res: BrokerAction)
    requires
        old(broker).stage is Reading,
        old(broker).reconnections < u32::MAX,
        call_ensures(EpicboxBroker::subscribe, (broker, BrokerEvent::ReadFailed), res),
    ensures
        res == BrokerAction::Finish(BrokerEnd::Broken),
        final(broker).stage is Ended,
        final(broker).reconnections == old(broker).reconnections + 1,
{
}

/// A message that is no response ends the subscription where it cannot be read
/// or closes the connection, and is passed over where it is a control message.
pub proof fn other_messages_end_or_pass(broker: &mut EpicboxBroker, incoming: Incoming, res: BrokerAction)
    requires
        old(broker).stage is Reading,
        !(incoming is Response),
        call_ensures(EpicboxBroker::subscribe, (broker, BrokerEvent::Received(incoming)), res),
    ensures
        knows_the_same(*old(broker), *final(broker)),
        incoming is Unreadable ==> res == BrokerAction::Finish(BrokerEnd::Unreadable)
            && final(broker).stage is Ended,
        incoming is Close ==> res == BrokerAction::Finish(BrokerEnd::Closed)
            && final(broker).stage is Ended,
        incoming is Control ==> res is CheckNode && final(broker).stage is CheckingNode,
{
}

/// A challenge is kept and signed; before the first one is, the client details
/// are sent. It shows that the connection works.
pub proof fn challenge_is_kept_and_signed(broker: &mut EpicboxBroker, str: String, res: BrokerAction)
    requires
        old(broker).stage is Reading,
        call_ensures(
            EpicboxBroker::subscribe,
            (
                broker,
                BrokerEvent::Received(Incoming::Response(ProtocolResponseV2::Challenge { str })),
            ),
            res,
        ),
    ensures
        final(broker).challenge == Some(str),
        final(broker).reconnections == 0,
        final(broker).first_run == old(broker).first_run,
        old(broker).first_run ==> res is SendDetails && final(broker).stage is SendingDetails,
        !old(broker).first_run ==> res == BrokerAction::Sign(str)
            && final(broker).stage is SigningChallenge,
{
}

/// A slate is decrypted as it came, and the identifier of its message is kept.
pub proof fn slate_is_opened_as_it_came(
    broker: &mut EpicboxBroker,
    from: String,
    str: String,
    signature: String,
    epicboxmsgid: String,
    res: BrokerAction,
)
    requires
        old(broker).stage is Reading,
        call_ensures(
            EpicboxBroker::subscribe,
            (
                broker,
                BrokerEvent::Received(
                    Incoming::Response(
                        ProtocolResponseV2::Slate { from, str, signature, epicboxmsgid },
                    ),
                ),
            ),
            res,
        ),
    ensures
        res == (BrokerAction::OpenSlate { from, str, signature }),
        final(broker).stage == (Stage::OpeningSlate { epicboxmsgid }),
        final(broker).challenge == old(broker).challenge,
        final(broker).first_run == old(broker).first_run,
        final(broker).reconnections == 0,
{
}

/// Any other response only shows that the connection works.
pub proof fn other_responses_are_passed_over(
    broker: &mut EpicboxBroker,
    response: ProtocolResponseV2,
    res: BrokerAction,
)
    requires
        old(broker).stage is Reading,
        !(response is Challenge) && !(response is Slate),
        call_ensures(
            EpicboxBroker::subscribe,
            (broker, BrokerEvent::Received(Incoming::Response(response))),
            res,
        ),
    ensures
        res is CheckNode,
        final(broker).stage is CheckingNode,
        final(broker).challenge == old(broker).challenge,
        final(broker).first_run == old(broker).first_run,
        final(broker).reconnections == 0,
{
}

/// A signature goes where it was asked for: that of a challenge into a
/// subscription, and that of a message identifier into the notice for it.
pub proof fn signature_goes_where_it_was_asked_for(
    broker: &mut EpicboxBroker,
    signature: String,
    res: BrokerAction,
)
    requires
        old(broker).well_formed(),
        call_ensures(EpicboxBroker::subscribe, (broker, BrokerEvent::Signed(Ok(signature))), res),
    ensures
        old(broker).stage is SigningChallenge ==> res == (BrokerAction::SendSubscribe { signature })
            && final(broker).stage is Subscribing && knows_the_same(*old(broker), *final(broker)),
        old(broker).stage matches Stage::SigningSlate { epicboxmsgid } ==> res == (
        BrokerAction::SendSubscribe { signature }) && final(broker).stage == (
        Stage::Resubscribing { epicboxmsgid }) && knows_the_same(*old(broker), *final(broker)),
        old(broker).stage matches Stage::SigningMade { epicboxmsgid } ==> res == (
        BrokerAction::SendMade { signature, epicboxmsgid }) && final(broker).stage is SendingMade
            && knows_the_same(*old(broker), *final(broker)),
{
}

/// A challenge that cannot be signed ends the subscription; a message
/// identifier that cannot be signed does not.
pub proof fn unsigned_challenge_ends_the_subscription(
    broker: &mut EpicboxBroker,
    reason: String,
    res: BrokerAction,
)
    requires
        old(broker).well_formed(),
        call_ensures(EpicboxBroker::subscribe, (broker, BrokerEvent::Signed(Err(reason))), res),
    ensures
        old(broker).stage is SigningChallenge || old(broker).stage is SigningSlate ==> res
            == BrokerAction::Finish(BrokerEnd::NotSigned(reason)) && final(broker).stage is Ended,
        old(broker).stage is SigningMade ==> res is CheckNode
            && final(broker).stage is CheckingNode,
{
}

/// After the client details the challenge is signed, and they count as sent;
/// after the subscription behind a slate the identifier of its message is
/// signed; after the notice the waiting sender is told; and after any other
/// subscription the broker looks at the node again.
pub proof fn sent_request_is_followed_up(broker: &mut EpicboxBroker, res: BrokerAction)
    requires
        old(broker).well_formed(),
        call_ensures(EpicboxBroker::subscribe, (broker, BrokerEvent::Sent(Ok(()))), res),
    ensures
        old(broker).stage is SendingDetails ==> {
            &&& res == BrokerAction::Sign(old(broker).challenge->0)
            &&& final(broker).stage is SigningChallenge
            &&& !final(broker).first_run
            &&& final(broker).challenge == old(broker).challenge
        },
        old(broker).stage is Subscribing ==> res is CheckNode && final(broker).stage is CheckingNode && knows_the_same(*old(broker), *final(broker)),
        old(broker).stage matches Stage::Resubscribing { epicboxmsgid } ==> res
            == BrokerAction::Sign(epicboxmsgid) && final(broker).stage == (Stage::SigningMade {
            epicboxmsgid,
        }) && knows_the_same(*old(broker), *final(broker)),
        old(broker).stage is SendingMade ==> res is Notify && final(broker).stage is CheckingNode
            && knows_the_same(*old(broker), *final(broker)),
{
}

/// Client details that cannot be sent end the subscription; any other request
/// that cannot be sent is left out.
pub proof fn unsent_details_end_the_subscription(
    broker: &mut EpicboxBroker,
    reason: String,
    res: BrokerAction,
)
    requires
        old(broker).well_formed(),
        call_ensures(EpicboxBroker::subscribe, (broker, BrokerEvent::Sent(Err(reason))), res),
    ensures
        old(broker).stage is SendingDetails ==> res == BrokerAction::Finish(
            BrokerEnd::DetailsNotSent(reason),
        ) && final(broker).stage is Ended,
        old(broker).stage is Subscribing || old(broker).stage is Resubscribing || old(broker).stage is SendingMade ==> res is CheckNode && final(broker).stage is CheckingNode,
{
}

/// A slate that was decrypted is handed to the wallet, and one that could not
/// be ends the subscription.
pub proof fn opened_slate_is_handed_over(
    broker: &mut EpicboxBroker,
    epicboxmsgid: String,
    opened: bool,
    res: BrokerAction,
)
    requires
        old(broker).stage == (Stage::OpeningSlate { epicboxmsgid }),
        call_ensures(EpicboxBroker::subscribe, (broker, BrokerEvent::SlateOpened(opened)), res),
    ensures
        knows_the_same(*old(broker), *final(broker)),
        opened ==> res is HandleSlate && final(broker).stage == (Stage::HandlingSlate {
            epicboxmsgid,
        }),
        !opened ==> res == BrokerAction::Finish(BrokerEnd::SlateRefused)
            && final(broker).stage is Ended,
{
}

/// After the wallet has taken a slate the last challenge is signed once more.
pub proof fn handled_slate_is_answered_with_the_challenge(
    broker: &mut EpicboxBroker,
    epicboxmsgid: String,
    challenge: String,
    res: BrokerAction,
)
    requires
        old(broker).stage == (Stage::HandlingSlate { epicboxmsgid }),
        old(broker).challenge == Some(challenge),
        call_ensures(EpicboxBroker::subscribe, (broker, BrokerEvent::SlateHandled), res),
    ensures
        knows_the_same(*old(broker), *final(broker)),
        res == BrokerAction::Sign(challenge),
        final(broker).stage == (Stage::SigningSlate { epicboxmsgid }),
{
}

/// A subscription fails where the connection broke, the client details did not
/// go out or a challenge was not signed, and ends well otherwise. The handler
/// is told only where the connection was closed or broke.
pub proof fn end_is_returned_and_told(
    end: BrokerEnd,
    res: Result<(), Error>,
    told: Option<CloseReason>,
)
    requires
        call_ensures(subscription_result, (end,), res),
        call_ensures(close_reason, (&end,), told),
    ensures
        end is Unreadable || end is SlateRefused || end is Closed <==> res is Ok,
        end is Broken ==> res == Err::<(), Error>(Error::EpicboxWebsocketAbnormalTermination),
        end matches BrokerEnd::DetailsNotSent(reason) ==> (res matches Err(
            Error::EpicboxTungstenite(text),
        ) && text@ == "Could not send 'ClientDetails' request! "@ + reason@),
        end matches BrokerEnd::NotSigned(reason) ==> res == Err::<(), Error>(Error::Wallet(reason)),
        end is Closed ==> told == Some(CloseReason::Normal),
        end is Broken ==> told == Some(
            CloseReason::Abnormal(Error::EpicboxWebsocketAbnormalTermination),
        ),
        !(end is Closed) && !(end is Broken) ==> told is None,
{
}

/// The requests of the wallet hold what they are made of, and name version
/// 3.0.0 of the protocol.
pub proof fn requests_hold_what_they_are_made_of(
    address: &str,
    signature: String,
    epicboxmsgid: String,
    version: &str,
    mode: &str,
    subscribe: ProtocolRequestV2,
    made: ProtocolRequestV2,
    details: ProtocolRequestV2,
)
    requires
        call_ensures(subscribe_request, (address, signature), subscribe),
        call_ensures(made_send, (address, epicboxmsgid, signature), made),
        call_ensures(client_details, (version, mode), details),
    ensures
        subscribe matches ProtocolRequestV2::Subscribe { address: of, ver, signature: signed } && of@
            == address@ && ver@ == "3.0.0"@ && signed@ == signature@,
        made matches ProtocolRequestV2::Made { address: of, signature: signed, epicboxmsgid: id, ver }
            && of@ == address@ && signed@ == signature@ && id@ == epicboxmsgid@ && ver@ == "3.0.0"@,
        details matches ProtocolRequestV2::ClientDetails {
            wallet_version,
            wallet_mode,
            protocol_version,
        } && wallet_version@ == version@ && wallet_mode@ == mode@ && protocol_version@ == "3.0.0"@,
{
}

/// A slate is posted from its sender to its destination, encrypted, and signed
/// by the signature of the encrypted text. A failure to encrypt or to sign is
/// passed on.
pub proof fn slate_is_posted_encrypted_and_signed(
    from: String,
    to: String,
    message: Result<String, Error>,
    unsigned: Result<UnsignedPost, Error>,
    post: UnsignedPost,
    text: &str,
    signature: Result<String, Error>,
    signed: Result<ProtocolRequest, Error>,
)
    requires
        call_ensures(post_slate, (from, to, message), unsigned),
        unsigned matches Ok(found) ==> post == found,
        call_ensures(UnsignedPost::text_to_sign, (&post,), text),
        call_ensures(UnsignedPost::signed, (post, signature), signed),
    ensures
        message matches Err(error) ==> unsigned == Err::<UnsignedPost, Error>(error),
        signature matches Err(error) ==> signed == Err::<ProtocolRequest, Error>(error),
        message matches Ok(encrypted) ==> {
            &&& unsigned is Ok
            &&& text@ == encrypted@
            &&& signature matches Ok(made) ==> (signed matches Ok(
                ProtocolRequest::PostSlate { from: sender, to: receiver, str, signature: proof_of },
            ) && sender@ == from@ && receiver@ == to@ && str@ == encrypted@ && proof_of@ == made@)
        },
{
}

/// A connection is closed after a slate was posted exactly where that is asked
/// for; posting that failed is passed on.
pub proof fn connection_is_closed_where_asked(
    posted: Result<(), Error>,
    close_connection: bool,
    res: Result<bool, Error>,
)
    requires
        call_ensures(close_after_post, (posted, close_connection), res),
    ensures
        posted is Ok ==> res == Ok::<bool, Error>(close_connection),
        posted matches Err(error) ==> res == Err::<bool, Error>(error),
{
}

} // verus!
