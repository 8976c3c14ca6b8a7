//! The conversation with the epicbox server: what is sent in answer to what comes in.

use vstd::prelude::*;

use crate::epicbox::controller::CloseReason;
use crate::epicbox::error::Error;
use crate::text::join;

verus! {

/// The version of the protocol that the wallet speaks.
pub open spec fn protocol_version() -> Seq<char> {
    "3.0.0"@
}

/// What the server sends.
pub enum ProtocolResponseV2 {
    /// A text that the wallet signs to prove who it is.
    Challenge { str: String },
    /// A slate for the wallet, encrypted and signed.
    Slate { from: String, str: String, signature: String, epicboxmsgid: String },
    /// The version of the server.
    GetVersion { str: String },
    /// A request was refused.
    Error { description: String },
    /// A request was accepted.
    Accepted,
}

/// What the wallet sends.
pub enum ProtocolRequestV2 {
    /// Asks for the slates of an address.
    Subscribe { address: String, ver: String, signature: String },
    /// Says that a slate was taken.
    Made { address: String, signature: String, epicboxmsgid: String, ver: String },
    /// Says which wallet this is.
    ClientDetails { wallet_version: String, wallet_mode: String, protocol_version: String },
}

/// A slate on its way to another wallet.
pub enum ProtocolRequest {
    /// Asks the server to deliver a slate.
    PostSlate { from: String, to: String, str: String, signature: String },
}

/// One read from the socket.
pub enum Incoming {
    /// A text or binary message that reads as a response.
    Response(ProtocolResponseV2),
    /// A text or binary message that does not.
    Unreadable,
    /// A ping, a pong or a bare frame.
    Control,
    /// The server closes the connection.
    Close,
}

/// What the broker waits for.
pub enum Stage {
    /// Whether the node is synced.
    CheckingNode,
    /// A message.
    Reading,
    /// The client details to be sent.
    SendingDetails,
    /// The signature of a challenge.
    SigningChallenge,
    /// The subscription that answers a challenge to be sent.
    Subscribing,
    /// A slate to be decrypted.
    OpeningSlate { epicboxmsgid: String },
    /// A slate to be taken by the wallet.
    HandlingSlate { epicboxmsgid: String },
    /// The signature of the challenge, after a slate.
    SigningSlate { epicboxmsgid: String },
    /// The subscription after a slate to be sent.
    Resubscribing { epicboxmsgid: String },
    /// The signature of a message identifier.
    SigningMade { epicboxmsgid: String },
    /// The notice that a slate was taken to be sent.
    SendingMade,
    /// Nothing any more.
    Ended,
}

/// What happened outside.
pub enum BrokerEvent {
    /// Whether the node is synced.
    NodeSynced(bool),
    /// The socket could not be read.
    ReadFailed,
    /// The socket gave a message.
    Received(Incoming),
    /// A text was signed, or the reason why not.
    Signed(Result<String, String>),
    /// A request was sent, or the reason why not.
    Sent(Result<(), String>),
    /// Whether a slate could be decrypted.
    SlateOpened(bool),
    /// The wallet has taken a slate.
    SlateHandled,
}

/// How a subscription ends.
pub enum BrokerEnd {
    /// A message could not be read.
    Unreadable,
    /// A slate could not be decrypted.
    SlateRefused,
    /// The server closed the connection.
    Closed,
    /// The connection broke.
    Broken,
    /// The client details could not be sent.
    DetailsNotSent(String),
    /// A text could not be signed.
    NotSigned(String),
}

/// What is to be done outside.
pub enum BrokerAction {
    /// Wait, then look at the node again.
    Pause,
    /// Look at the node.
    CheckNode,
    /// Read a message.
    Read,
    /// Send the client details.
    SendDetails,
    /// Sign a text.
    Sign(String),
    /// Send a subscription with this signature.
    SendSubscribe { signature: String },
    /// Decrypt a slate.
    OpenSlate { from: String, str: String, signature: String },
    /// Hand the slate that was decrypted to the wallet.
    HandleSlate,
    /// Send the notice that a slate was taken.
    SendMade { signature: String, epicboxmsgid: String },
    /// Tell the waiting sender that the notice went out, then look at the node.
    Notify,
    /// Stop.
    Finish(BrokerEnd),
}

/// A subscription at the epicbox server.
pub struct EpicboxBroker {
    /// Whether the client details are still to be sent.
    pub first_run: bool,
    /// The last challenge.
    pub challenge: Option<String>,
    /// How often in a row the connection was lost.
    pub reconnections: u32,
    /// What the broker waits for.
    pub stage: Stage,
}

/// How long the broker pauses while the node is not synced, in seconds.
pub const NODE_SYNC_PAUSE_SECS: u64 = 5;

impl EpicboxBroker {
    /// Whether the broker waits for such an event.
    pub open spec fn awaits(&self, event: BrokerEvent) -> bool {
        match event {
            BrokerEvent::NodeSynced(_) => self.stage is CheckingNode,
            BrokerEvent::ReadFailed => self.stage is Reading,
            BrokerEvent::Received(_) => self.stage is Reading,
            BrokerEvent::Signed(_) => self.stage is SigningChallenge || self.stage is SigningSlate
                || self.stage is SigningMade,
            BrokerEvent::Sent(_) => self.stage is SendingDetails || self.stage is Subscribing
                || self.stage is Resubscribing || self.stage is SendingMade,
            BrokerEvent::SlateOpened(_) => self.stage is OpeningSlate,
            BrokerEvent::SlateHandled => self.stage is HandlingSlate,
        }
    }

    /// Whether a challenge is known where one is to be signed.
    pub open spec fn well_formed(&self) -> bool {
        self.stage is SendingDetails || self.stage is SigningChallenge ==> self.challenge is Some
    }

    /// The broker in another stage.
    pub open spec fn at(self, stage: Stage) -> EpicboxBroker {
        EpicboxBroker { stage, ..self }
    }

    /// The broker after a response, and what is to be done about it. Any
    /// response shows that the connection works.
    pub open spec fn after_response(self, response: ProtocolResponseV2) -> (
        EpicboxBroker,
        BrokerAction,
    ) {
        let heard = EpicboxBroker { reconnections: 0, ..self };
        match response {
            ProtocolResponseV2::Challenge { str } => {
                let known = EpicboxBroker { challenge: Some(str), ..heard };
                if self.first_run {
                    (known.at(Stage::SendingDetails), BrokerAction::SendDetails)
                } else {
                    (known.at(Stage::SigningChallenge), BrokerAction::Sign(str))
                }
            },
            ProtocolResponseV2::Slate { from, str, signature, epicboxmsgid } => (
                heard.at(Stage::OpeningSlate { epicboxmsgid }),
                BrokerAction::OpenSlate { from, str, signature },
            ),
            _ => (heard.at(Stage::CheckingNode), BrokerAction::CheckNode),
        }
    }

    /// The broker after a text was signed, and what is to be done next.
    pub open spec fn after_signing(self, signature: String) -> (EpicboxBroker, BrokerAction) {
        match self.stage {
            Stage::SigningChallenge => (
                self.at(Stage::Subscribing),
                BrokerAction::SendSubscribe { signature },
            ),
            Stage::SigningSlate { epicboxmsgid } => (
                self.at(Stage::Resubscribing { epicboxmsgid }),
                BrokerAction::SendSubscribe { signature },
            ),
            Stage::SigningMade { epicboxmsgid } => (
                self.at(Stage::SendingMade),
                BrokerAction::SendMade { signature, epicboxmsgid },
            ),
            _ => (self, BrokerAction::CheckNode),
        }
    }

    /// The broker after a request was sent, and what is to be done next.
    pub open spec fn after_sending(self) -> (EpicboxBroker, BrokerAction) {
        match self.stage {
            Stage::SendingDetails => (
                (EpicboxBroker { first_run: false, ..self }).at(Stage::SigningChallenge),
                BrokerAction::Sign(self.challenge->0),
            ),
            Stage::Resubscribing { epicboxmsgid } => (
                self.at(Stage::SigningMade { epicboxmsgid }),
                BrokerAction::Sign(epicboxmsgid),
            ),
            Stage::SendingMade => (self.at(Stage::CheckingNode), BrokerAction::Notify),
            _ => (self.at(Stage::CheckingNode), BrokerAction::CheckNode),
        }
    }

    /// The broker at its end.
    pub open spec fn ended(self, end: BrokerEnd) -> (EpicboxBroker, BrokerAction) {
        (self.at(Stage::Ended), BrokerAction::Finish(end))
    }

    /// The broker after an event, and what is to be done next.
    pub open spec fn after(self, event: BrokerEvent) -> (EpicboxBroker, BrokerAction) {
        let on = (self.at(Stage::CheckingNode), BrokerAction::CheckNode);
        match event {
            BrokerEvent::NodeSynced(synced) => if synced {
                (self.at(Stage::Reading), BrokerAction::Read)
            } else {
                (self, BrokerAction::Pause)
            },
            BrokerEvent::ReadFailed => (EpicboxBroker {
                reconnections: (self.reconnections + 1) as u32,
                ..self
            }).ended(BrokerEnd::Broken),
            BrokerEvent::Received(incoming) => match incoming {
                Incoming::Response(response) => self.after_response(response),
                Incoming::Unreadable => self.ended(BrokerEnd::Unreadable),
                Incoming::Control => on,
                Incoming::Close => self.ended(BrokerEnd::Closed),
            },
            BrokerEvent::Signed(Ok(signature)) => self.after_signing(signature),
            // a notice that cannot be signed is left out
            BrokerEvent::Signed(Err(reason)) => if self.stage is SigningMade {
                on
            } else {
                self.ended(BrokerEnd::NotSigned(reason))
            },
            BrokerEvent::Sent(Ok(_)) => self.after_sending(),
            // only the client details have to go out
            BrokerEvent::Sent(Err(reason)) => if self.stage is SendingDetails {
                self.ended(BrokerEnd::DetailsNotSent(reason))
            } else {
                on
            },
            BrokerEvent::SlateOpened(opened) => match self.stage {
                Stage::OpeningSlate { epicboxmsgid } => if opened {
                    (self.at(Stage::HandlingSlate { epicboxmsgid }), BrokerAction::HandleSlate)
                } else {
                    self.ended(BrokerEnd::SlateRefused)
                },
                _ => on,
            },
            BrokerEvent::SlateHandled => match self.stage {
                Stage::HandlingSlate { epicboxmsgid } => (
                    self.at(Stage::SigningSlate { epicboxmsgid }),
                    BrokerAction::Sign(self.challenge->0),
                ),
                _ => on,
            },
        }
    }

    /// A subscription that has not started; the connection was lost `reconnections` times before.
    pub fn new(reconnections: u32) -> (res: Self)
        ensures
            res.well_formed(),
            res.first_run,
            res.challenge is None,
            res.reconnections == reconnections,
            res.stage is CheckingNode,
    {
        EpicboxBroker { first_run: true, challenge: None, reconnections, stage: Stage::CheckingNode }
    }

    /// Takes in what happened and says what is to be done. A slate must not come
    /// before the first challenge, and the count of lost connections must not run over.
    pub fn subscribe(&mut self, event: BrokerEvent) -> (res: BrokerAction)
        requires
            old(self).well_formed(),
            old(self).awaits(event),
            event is SlateHandled ==> old(self).challenge is Some,
            event is ReadFailed ==> old(self).reconnections < u32::MAX,
        ensures
            final(self).well_formed(),
            (*final(self), res) == old(self).after(event),
    {
        let mut stage = Stage::CheckingNode;
        std::mem::swap(&mut stage, &mut self.stage);
        match event {
            BrokerEvent::NodeSynced(synced) => if synced {
                self.stage = Stage::Reading;
                BrokerAction::Read
            } else {
                BrokerAction::Pause
            },
            BrokerEvent::ReadFailed => {
                self.reconnections = self.reconnections + 1;
                self.finish(BrokerEnd::Broken)
            },
            BrokerEvent::Received(Incoming::Response(response)) => self.take_response(response),
            BrokerEvent::Received(Incoming::Unreadable) => self.finish(BrokerEnd::Unreadable),
            BrokerEvent::Received(Incoming::Control) => BrokerAction::CheckNode,
            BrokerEvent::Received(Incoming::Close) => self.finish(BrokerEnd::Closed),
            BrokerEvent::Signed(Ok(signature)) => match stage {
                Stage::SigningSlate { epicboxmsgid } => {
                    self.stage = Stage::Resubscribing { epicboxmsgid };
                    BrokerAction::SendSubscribe { signature }
                },
                Stage::SigningMade { epicboxmsgid } => {
                    self.stage = Stage::SendingMade;
                    BrokerAction::SendMade { signature, epicboxmsgid }
                },
                _ => {
                    self.stage = Stage::Subscribing;
                    BrokerAction::SendSubscribe { signature }
                },
            },
            BrokerEvent::Signed(Err(reason)) => match stage {
                Stage::SigningMade { .. } => BrokerAction::CheckNode,
                _ => self.finish(BrokerEnd::NotSigned(reason)),
            },
            BrokerEvent::Sent(Ok(())) => match stage {
                Stage::SendingDetails => {
                    self.first_run = false;
                    self.stage = Stage::SigningChallenge;
                    self.sign_challenge()
                },
                Stage::Resubscribing { epicboxmsgid } => {
                    let text = epicboxmsgid.clone();
                    self.stage = Stage::SigningMade { epicboxmsgid };
                    BrokerAction::Sign(text)
                },
                Stage::SendingMade => BrokerAction::Notify,
                _ => BrokerAction::CheckNode,
            },
            BrokerEvent::Sent(Err(reason)) => match stage {
                Stage::SendingDetails => self.finish(BrokerEnd::DetailsNotSent(reason)),
                _ => BrokerAction::CheckNode,
            },
            BrokerEvent::SlateOpened(opened) => match stage {
                Stage::OpeningSlate { epicboxmsgid } => if opened {
                    self.stage = Stage::HandlingSlate { epicboxmsgid };
                    BrokerAction::HandleSlate
                } else {
                    self.finish(BrokerEnd::SlateRefused)
                },
                _ => BrokerAction::CheckNode,
            },
            BrokerEvent::SlateHandled => match stage {
                Stage::HandlingSlate { epicboxmsgid } => {
                    self.stage = Stage::SigningSlate { epicboxmsgid };
                    self.sign_challenge()
                },
                _ => BrokerAction::CheckNode,
            },
        }
    }

    fn finish(&mut self, end: BrokerEnd) -> (res: BrokerAction)
        ensures
            (*final(self), res) == old(self).ended(end),
    {
        self.stage = Stage::Ended;
        BrokerAction::Finish(end)
    }

    fn sign_challenge(&self) -> (res: BrokerAction)
        requires
            self.challenge is Some,
        ensures
            res == BrokerAction::Sign(self.challenge->0),
    {
        match &self.challenge {
            Some(challenge) => BrokerAction::Sign(challenge.clone()),
            None => BrokerAction::CheckNode,
        }
    }

    fn take_response(&mut self, response: ProtocolResponseV2) -> (res: BrokerAction)
        requires
            old(self).stage is CheckingNode,
        ensures
            (*final(self), res) == old(self).after_response(response),
    {
        self.reconnections = 0;
        match response {
            ProtocolResponseV2::Challenge { str } => {
                let text = str.clone();
                self.challenge = Some(str);
                if self.first_run {
                    self.stage = Stage::SendingDetails;
                    BrokerAction::SendDetails
                } else {
                    self.stage = Stage::SigningChallenge;
                    BrokerAction::Sign(text)
                }
            },
            ProtocolResponseV2::Slate { from, str, signature, epicboxmsgid } => {
                self.stage = Stage::OpeningSlate { epicboxmsgid };
                BrokerAction::OpenSlate { from, str, signature }
            },
            _ => BrokerAction::CheckNode,
        }
    }
}

/// The text of the error for client details that could not be sent.
pub open spec fn details_not_sent(reason: Seq<char>) -> Seq<char> {
    "Could not send 'ClientDetails' request! "@ + reason
}

/// What the subscription returns at its end.
pub fn subscription_result(end: BrokerEnd) -> (res: Result<(), Error>)
    ensures
        match end {
            BrokerEnd::Unreadable | BrokerEnd::SlateRefused | BrokerEnd::Closed => res is Ok,
            BrokerEnd::Broken => res matches Err(error)
                && error is EpicboxWebsocketAbnormalTermination,
            BrokerEnd::DetailsNotSent(reason) => res matches Err(Error::EpicboxTungstenite(text))
                && text@ == details_not_sent(reason@),
            BrokerEnd::NotSigned(reason) => res == Err::<(), Error>(Error::Wallet(reason)),
        },
{
    match end {
        BrokerEnd::Unreadable | BrokerEnd::SlateRefused | BrokerEnd::Closed => Ok(()),
        BrokerEnd::Broken => Err(Error::EpicboxWebsocketAbnormalTermination),
        BrokerEnd::DetailsNotSent(reason) => Err(
            Error::EpicboxTungstenite(
                join("Could not send 'ClientDetails' request! ", reason.as_str()),
            ),
        ),
        BrokerEnd::NotSigned(reason) => Err(Error::Wallet(reason)),
    }
}

/// The reason that the handler is given when the connection is closed at the
/// end; the other ends leave the connection as it is.
pub fn close_reason(end: &BrokerEnd) -> (res: Option<CloseReason>)
    ensures
        match *end {
            BrokerEnd::Closed => res == Some(CloseReason::Normal),
            BrokerEnd::Broken => res == Some(
                CloseReason::Abnormal(Error::EpicboxWebsocketAbnormalTermination),
            ),
            _ => res is None,
        },
{
    match end {
        BrokerEnd::Closed => Some(CloseReason::Normal),
        BrokerEnd::Broken => Some(
            CloseReason::Abnormal(Error::EpicboxWebsocketAbnormalTermination),
        ),
        _ => None,
    }
}

/// The request that asks for the slates of `address`.
pub fn subscribe_request(address: &str, signature: String) -> (res: ProtocolRequestV2)
    ensures
        res matches ProtocolRequestV2::Subscribe { address: of, ver, signature: signed } && of@
            == address@ && ver@ == protocol_version() && signed == signature,
{
    ProtocolRequestV2::Subscribe {
        address: String::from_str(address),
        ver: String::from_str("3.0.0"),
        signature,
    }
}

/// The request that says that the slate with this message identifier was taken.
pub fn made_send(address: &str, epicboxmsgid: String, signature: String) -> (res: ProtocolRequestV2)
    ensures
        res matches ProtocolRequestV2::Made { address: of, signature: signed, epicboxmsgid: id, ver }
            && of@ == address@ && signed == signature && id == epicboxmsgid && ver@
            == protocol_version(),
{
    ProtocolRequestV2::Made {
        address: String::from_str(address),
        signature,
        epicboxmsgid,
        ver: String::from_str("3.0.0"),
    }
}

/// The request that says which wallet this is.
pub fn client_details(wallet_version: &str, wallet_mode: &str) -> (res: ProtocolRequestV2)
    ensures
        res matches ProtocolRequestV2::ClientDetails {
            wallet_version: version,
            wallet_mode: mode,
            protocol_version: protocol,
        } && version@ == wallet_version@ && mode@ == wallet_mode@ && protocol@
            == protocol_version(),
{
    ProtocolRequestV2::ClientDetails {
        wallet_version: String::from_str(wallet_version),
        wallet_mode: String::from_str(wallet_mode),
        protocol_version: String::from_str("3.0.0"),
    }
}

/// A slate that is encrypted and still to be signed.
pub struct UnsignedPost {
    pub from: String,
    pub to: String,
    pub message: String,
}

/// Takes the encrypted slate, or passes on the failure to encrypt it.
pub fn post_slate(from: String, to: String, message: Result<String, Error>) -> (res: Result<
    UnsignedPost,
    Error,
>)
    ensures
        match message {
            Ok(message) => res == Ok::<UnsignedPost, Error>(UnsignedPost { from, to, message }),
            Err(error) => res == Err::<UnsignedPost, Error>(error),
        },
{
    match message {
        Ok(message) => Ok(UnsignedPost { from, to, message }),
        Err(error) => Err(error),
    }
}

impl UnsignedPost {
    /// The text that is to be signed: the encrypted message itself.
    pub fn text_to_sign(&self) -> (res: &str)
        ensures
            res@ == self.message@,
    {
        self.message.as_str()
    }

    /// Takes the signature of the message, or passes on the failure to sign it.
    pub fn signed(self, signature: Result<String, Error>) -> (res: Result<ProtocolRequest, Error>)
        ensures
            match signature {
                Ok(signature) => res == Ok::<ProtocolRequest, Error>(
                    ProtocolRequest::PostSlate {
                        from: self.from,
                        to: self.to,
                        str: self.message,
                        signature,
                    },
                ),
                Err(error) => res == Err::<ProtocolRequest, Error>(error),
            },
    {
        match signature {
            Ok(signature) => Ok(
                ProtocolRequest::PostSlate {
                    from: self.from,
                    to: self.to,
                    str: self.message,
                    signature,
                },
            ),
            Err(error) => Err(error),
        }
    }
}

/// Whether the connection is to be closed after a slate was posted: it is
/// where that is asked for, unless posting failed.
pub fn close_after_post(posted: Result<(), Error>, close_connection: bool) -> (res: Result<
    bool,
    Error,
>)
    ensures
        match posted {
            Ok(_) => res == Ok::<bool, Error>(close_connection),
            Err(error) => res == Err::<bool, Error>(error),
        },
{
    match posted {
        Ok(()) => Ok(close_connection),
        Err(error) => Err(error),
    }
}

/// The client details go out at most once: only a broker that has not sent
/// them sends them, and one that has never counts as new again.
pub proof fn details_are_sent_once(broker: EpicboxBroker, event: BrokerEvent)
    requires
        broker.awaits(event),
    ensures
        broker.after(event).1 is SendDetails ==> broker.first_run,
        broker.after(event).0.first_run ==> broker.first_run,
        broker.stage is SendingDetails && event is Sent && event->Sent_0 is Ok
            ==> !broker.after(event).0.first_run,
{
}

/// The notice that a slate was taken names the slate of the last message, and
/// goes out only after that slate was decrypted and handed to the wallet and
/// the subscription after it was sent.
pub proof fn notice_follows_its_slate(broker: EpicboxBroker, event: BrokerEvent, id: String)
    requires
        broker.awaits(event),
    ensures
        ({
            let (next, action) = broker.after(event);
            &&& (action matches BrokerAction::SendMade { epicboxmsgid, .. } && epicboxmsgid == id)
                ==> broker.stage == (Stage::SigningMade { epicboxmsgid: id })
            &&& next.stage == (Stage::SigningMade { epicboxmsgid: id }) ==> broker.stage == (
            Stage::Resubscribing { epicboxmsgid: id }) && event->Sent_0 is Ok
            &&& next.stage == (Stage::Resubscribing { epicboxmsgid: id }) ==> broker.stage == (
            Stage::SigningSlate { epicboxmsgid: id })
            &&& next.stage == (Stage::SigningSlate { epicboxmsgid: id }) ==> broker.stage == (
            Stage::HandlingSlate { epicboxmsgid: id }) && event is SlateHandled
            &&& next.stage == (Stage::HandlingSlate { epicboxmsgid: id }) ==> broker.stage == (
            Stage::OpeningSlate { epicboxmsgid: id }) && event == BrokerEvent::SlateOpened(true)
            &&& next.stage == (Stage::OpeningSlate { epicboxmsgid: id }) ==> exists|
                from: String,
                str: String,
                signature: String,
            |
                event == BrokerEvent::Received(
                    Incoming::Response(
                        #[trigger] slate_response(from, str, signature, id),
                    ),
                )
        }),
{
    if let BrokerEvent::Received(Incoming::Response(response)) = event {
        if let ProtocolResponseV2::Slate { from, str, signature, epicboxmsgid } = response {
            assert(response == slate_response(from, str, signature, epicboxmsgid));
        }
    }
}

/// The response that carries a slate.
pub open spec fn slate_response(
    from: String,
    str: String,
    signature: String,
    epicboxmsgid: String,
) -> ProtocolResponseV2 {
    ProtocolResponseV2::Slate { from, str, signature, epicboxmsgid }
}

/// A challenge, once there is one, stays known, so that a slate that comes
/// after the first challenge is always answered.
pub proof fn challenge_stays_known(broker: EpicboxBroker, event: BrokerEvent)
    requires
        broker.challenge is Some,
        broker.awaits(event),
    ensures
        broker.after(event).0.challenge is Some,
{
}

/// Every response sets the count of lost connections back, and only a failed
/// read raises it.
pub proof fn responses_clear_lost_connections(broker: EpicboxBroker, event: BrokerEvent)
    requires
        broker.awaits(event),
    ensures
        event is Received && event->Received_0 is Response ==> broker.after(event).0.reconnections
            == 0,
        broker.reconnections < u32::MAX && event is ReadFailed ==> broker.after(
            event,
        ).0.reconnections == broker.reconnections + 1,
        !(event is ReadFailed) ==> broker.after(event).0.reconnections <= broker.reconnections,
{
}

/// A subscription that has finished waits for nothing, and one that waits for
/// nothing has finished.
pub proof fn finish_is_final(broker: EpicboxBroker, event: BrokerEvent)
    ensures
        broker.stage is Ended ==> !broker.awaits(event),
        broker.awaits(event) ==> (broker.after(event).1 is Finish <==> broker.after(
            event,
        ).0.stage is Ended),
{
}

} // verus!
