//! The messages exchanged with clients.

pub mod internals;

use crate::media::{ConsumerId, MediaKind, ProducerId, TransportId};
use crate::view::{clone_texts, views};
use crate::webrtc::room::RoomId;
use crate::websocket::session::SessionId;
use vstd::prelude::*;

verus! {

/// What a client needs to know of a transport in order to connect to it.
/// The parameter blocks are kept as the media engine encoded them.
#[derive(Debug, Clone, PartialEq, Eq)]
pub struct TransportOptions {
    pub id: TransportId,
    pub dtls_parameters: String,
    pub ice_candidates: Vec<String>,
    pub ice_parameters: String,
}

/// What a `TransportOptions` stands for: the same value, with texts and lists as
/// sequences.
pub struct TransportOptionsView {
    pub id: TransportId,
    pub dtls_parameters: Seq<char>,
    pub ice_candidates: Seq<Seq<char>>,
    pub ice_parameters: Seq<char>,
}

impl View for TransportOptions {
    type V = TransportOptionsView;

    open spec fn view(&self) -> TransportOptionsView {
        TransportOptionsView {
            id: self.id,
            dtls_parameters: self.dtls_parameters@,
            ice_candidates: views(self.ice_candidates@),
            ice_parameters: self.ice_parameters@,
        }
    }
}

impl TransportOptions {
    /// A copy of the options.
    pub fn duplicate(&self) -> (copy: TransportOptions)
        ensures
            copy@ == self@,
    {
        TransportOptions {
            id: self.id,
            dtls_parameters: self.dtls_parameters.clone(),
            ice_candidates: clone_texts(&self.ice_candidates),
            ice_parameters: self.ice_parameters.clone(),
        }
    }
}

/// Messages sent to clients.
#[derive(Debug, Clone, PartialEq, Eq)]
#[allow(inconsistent_fields)]
pub enum ServerMessage {
    /// Sent once, as soon as the connection stands.
    Init {
        room_id: RoomId,
        consumer_transport_options: TransportOptions,
        producer_transport_options: TransportOptions,
        router_rtp_capabilities: String,
    },
    ConnectedProducerTransport,
    Produced { id: ProducerId },
    ConnectedConsumerTransport,
    /// A consumer was created on the server side; the client can resume it
    /// after this.
    Consumed {
        id: ConsumerId,
        producer_id: ProducerId,
        session_id: SessionId,
        kind: MediaKind,
        rtp_parameters: String,
    },
    /// Tells the client of a participant of the meeting.
    NewComer { session_id: SessionId, name: String, just_joined: bool },
    /// Text sent to the whole room.
    Text { sender_id: SessionId, text: String },
    /// A stream was added to the room.
    ProducerAdded { session_id: SessionId, producer_id: ProducerId },
    /// A stream was removed from the room.
    ProducerRemoved { session_id: SessionId, producer_id: ProducerId },
    Error { error: String },
}

/// What a `ServerMessage` stands for: the same value, with texts and lists as
/// sequences.
#[allow(inconsistent_fields)]
pub enum ServerMessageView {
    Init {
        room_id: RoomId,
        consumer_transport_options: TransportOptionsView,
        producer_transport_options: TransportOptionsView,
        router_rtp_capabilities: Seq<char>,
    },
    ConnectedProducerTransport,
    Produced { id: ProducerId },
    ConnectedConsumerTransport,
    Consumed {
        id: ConsumerId,
        producer_id: ProducerId,
        session_id: SessionId,
        kind: MediaKind,
        rtp_parameters: Seq<char>,
    },
    NewComer { session_id: SessionId, name: Seq<char>, just_joined: bool },
    Text { sender_id: SessionId, text: Seq<char> },
    ProducerAdded { session_id: SessionId, producer_id: ProducerId },
    ProducerRemoved { session_id: SessionId, producer_id: ProducerId },
    Error { error: Seq<char> },
}

impl View for ServerMessage {
    type V = ServerMessageView;

    open spec fn view(&self) -> ServerMessageView {
        match *self {
            ServerMessage::Init {
                room_id,
                consumer_transport_options,
                producer_transport_options,
                router_rtp_capabilities,
            } => ServerMessageView::Init {
                room_id,
                consumer_transport_options: consumer_transport_options@,
                producer_transport_options: producer_transport_options@,
                router_rtp_capabilities: router_rtp_capabilities@,
            },
            ServerMessage::ConnectedProducerTransport => ServerMessageView::ConnectedProducerTransport,
            ServerMessage::Produced { id } => ServerMessageView::Produced { id },
            ServerMessage::ConnectedConsumerTransport => ServerMessageView::ConnectedConsumerTransport,
            ServerMessage::Consumed { id, producer_id, session_id, kind, rtp_parameters } =>
                ServerMessageView::Consumed {
                    id,
                    producer_id,
                    session_id,
                    kind,
                    rtp_parameters: rtp_parameters@,
                },
            ServerMessage::NewComer { session_id, name, just_joined } => ServerMessageView::NewComer {
                session_id,
                name: name@,
                just_joined,
            },
            ServerMessage::Text { sender_id, text } => ServerMessageView::Text {
                sender_id,
                text: text@,
            },
            ServerMessage::ProducerAdded { session_id, producer_id } =>
                ServerMessageView::ProducerAdded { session_id, producer_id },
            ServerMessage::ProducerRemoved { session_id, producer_id } =>
                ServerMessageView::ProducerRemoved { session_id, producer_id },
            ServerMessage::Error { error } => ServerMessageView::Error { error: error@ },
        }
    }
}

/// Messages received from clients, after decoding. Parameter blocks that
/// only the media engine reads are kept as the text the client sent.
#[derive(Debug, Clone, PartialEq, Eq)]
#[allow(inconsistent_fields)]
pub enum ClientMessage {
    /// The client's capabilities, sent before it consumes anything.
    Init { rtp_capabilities: String },
    /// Asks to connect the producer transport.
    ConnectProducerTransport { dtls_parameters: String },
    /// Asks to produce a new audio or video stream.
    Produce { kind: MediaKind, rtp_parameters: String },
    /// Asks to connect the consumer transport.
    ConnectConsumerTransport { dtls_parameters: String },
    /// Asks to consume a stream of another session.
    Consume { producer_id: ProducerId, session_id: SessionId },
    /// Asks to resume a consumer that was created earlier.
    ConsumerResume { id: ConsumerId },
    /// Withdraws one of the client's own streams.
    RemoveProducer { id: ProducerId },
    /// Text for the whole room.
    Text { text: String },
}

/// What a `ClientMessage` stands for: the same value, with texts and lists as
/// sequences.
#[allow(inconsistent_fields)]
pub enum ClientMessageView {
    Init { rtp_capabilities: Seq<char> },
    ConnectProducerTransport { dtls_parameters: Seq<char> },
    Produce { kind: MediaKind, rtp_parameters: Seq<char> },
    ConnectConsumerTransport { dtls_parameters: Seq<char> },
    Consume { producer_id: ProducerId, session_id: SessionId },
    ConsumerResume { id: ConsumerId },
    RemoveProducer { id: ProducerId },
    Text { text: Seq<char> },
}

impl View for ClientMessage {
    type V = ClientMessageView;

    open spec fn view(&self) -> ClientMessageView {
        match *self {
            ClientMessage::Init { rtp_capabilities } => ClientMessageView::Init {
                rtp_capabilities: rtp_capabilities@,
            },
            ClientMessage::ConnectProducerTransport { dtls_parameters } =>
                ClientMessageView::ConnectProducerTransport { dtls_parameters: dtls_parameters@ },
            ClientMessage::Produce { kind, rtp_parameters } => ClientMessageView::Produce {
                kind,
                rtp_parameters: rtp_parameters@,
            },
            ClientMessage::ConnectConsumerTransport { dtls_parameters } =>
                ClientMessageView::ConnectConsumerTransport { dtls_parameters: dtls_parameters@ },
            ClientMessage::Consume { producer_id, session_id } => ClientMessageView::Consume {
                producer_id,
                session_id,
            },
            ClientMessage::ConsumerResume { id } => ClientMessageView::ConsumerResume { id },
            ClientMessage::RemoveProducer { id } => ClientMessageView::RemoveProducer { id },
            ClientMessage::Text { text } => ClientMessageView::Text { text: text@ },
        }
    }
}

} // verus!
