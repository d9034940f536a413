//! What a session is told and what it asks for.
//!
//! A session never touches the connection, the media engine or the hub. It
//! is handed frames and replies as values, and answers with a list of
//! effects that the embedding program carries out in order.

use crate::media::{ConsumerId, MediaKind, ProducerId};
use crate::view::views;
use crate::websocket::messages::internals::{
    InternalMessage, InternalMessageView, LocalScopeMessage, LocalScopeMessageView,
};
use crate::websocket::messages::{
    ClientMessage, ClientMessageView, ServerMessage, ServerMessageView,
};
use crate::websocket::session::SessionId;
use vstd::prelude::*;

verus! {

/// The connection broke the framing protocol.
#[derive(Debug, Clone, Copy, PartialEq, Eq, Structural)]
pub struct ProtocolError;

/// Why a peer closes the connection.
#[derive(Debug, Clone, PartialEq, Eq)]
pub struct CloseReason {
    pub code: u16,
    pub description: Option<String>,
}

/// What a `CloseReason` stands for: the same value, with texts and lists as
/// sequences.
pub struct CloseReasonView {
    pub code: u16,
    pub description: Option<Seq<char>>,
}

impl View for CloseReason {
    type V = CloseReasonView;

    open spec fn view(&self) -> CloseReasonView {
        CloseReasonView {
            code: self.code,
            description: match self.description {
                Some(text) => Some(text@),
                None => None,
            },
        }
    }
}

/// The view of a close reason that may be absent.
pub open spec fn close_view(reason: Option<CloseReason>) -> Option<CloseReasonView> {
    match reason {
        Some(reason) => Some(reason@),
        None => None,
    }
}

/// A frame that arrived on the connection. A text frame comes with the
/// request that was decoded from it, or with none where it holds no request.
#[derive(Debug, Clone, PartialEq, Eq)]
pub enum Frame {
    Ping(Vec<u8>),
    Pong(Vec<u8>),
    Continuation,
    Close(Option<CloseReason>),
    Binary(Vec<u8>),
    Text(Option<ClientMessage>),
    Nop,
}

/// What a `Frame` stands for: the same value, with texts and lists as
/// sequences.
pub enum FrameView {
    Ping(Seq<u8>),
    Pong(Seq<u8>),
    Continuation,
    Close(Option<CloseReasonView>),
    Binary(Seq<u8>),
    Text(Option<ClientMessageView>),
    Nop,
}

impl View for Frame {
    type V = FrameView;

    open spec fn view(&self) -> FrameView {
        match *self {
            Frame::Ping(bytes) => FrameView::Ping(bytes@),
            Frame::Pong(bytes) => FrameView::Pong(bytes@),
            Frame::Continuation => FrameView::Continuation,
            Frame::Close(reason) => FrameView::Close(close_view(reason)),
            Frame::Binary(bytes) => FrameView::Binary(bytes@),
            Frame::Text(request) => FrameView::Text(
                match request {
                    Some(request) => Some(request@),
                    None => None,
                },
            ),
            Frame::Nop => FrameView::Nop,
        }
    }
}

/// The view of what arrived on the connection: a frame or a protocol error.
pub open spec fn arrival_view(arrival: Result<Frame, ProtocolError>) -> Result<
    FrameView,
    ProtocolError,
> {
    match arrival {
        Ok(frame) => Ok(frame@),
        Err(error) => Err(error),
    }
}

/// A call into the media engine that a session asks for.
#[derive(Debug, Clone, PartialEq, Eq)]
pub enum EngineRequest {
    ConnectProducerTransport { dtls_parameters: String },
    ConnectConsumerTransport { dtls_parameters: String },
    /// Create a producer on the session's outbound transport.
    Produce { kind: MediaKind, rtp_parameters: String },
    /// Create a consumer of `producer_id` on the session's inbound
    /// transport; `session_id` is the session that the client named as the
    /// stream's source.
    Consume {
        producer_id: ProducerId,
        session_id: SessionId,
        rtp_capabilities: String,
        paused: bool,
    },
    ResumeConsumer { id: ConsumerId },
}

/// What a `EngineRequest` stands for: the same value, with texts and lists as
/// sequences.
pub enum EngineRequestView {
    ConnectProducerTransport { dtls_parameters: Seq<char> },
    ConnectConsumerTransport { dtls_parameters: Seq<char> },
    Produce { kind: MediaKind, rtp_parameters: Seq<char> },
    Consume {
        producer_id: ProducerId,
        session_id: SessionId,
        rtp_capabilities: Seq<char>,
        paused: bool,
    },
    ResumeConsumer { id: ConsumerId },
}

impl View for EngineRequest {
    type V = EngineRequestView;

    open spec fn view(&self) -> EngineRequestView {
        match *self {
            EngineRequest::ConnectProducerTransport { dtls_parameters } =>
                EngineRequestView::ConnectProducerTransport { dtls_parameters: dtls_parameters@ },
            EngineRequest::ConnectConsumerTransport { dtls_parameters } =>
                EngineRequestView::ConnectConsumerTransport { dtls_parameters: dtls_parameters@ },
            EngineRequest::Produce { kind, rtp_parameters } => EngineRequestView::Produce {
                kind,
                rtp_parameters: rtp_parameters@,
            },
            EngineRequest::Consume { producer_id, session_id, rtp_capabilities, paused } =>
                EngineRequestView::Consume {
                    producer_id,
                    session_id,
                    rtp_capabilities: rtp_capabilities@,
                    paused,
                },
            EngineRequest::ResumeConsumer { id } => EngineRequestView::ResumeConsumer { id },
        }
    }
}

/// What the media engine made of a request to create a consumer.
#[derive(Debug, Clone, PartialEq, Eq)]
pub struct ConsumerCreated {
    pub id: ConsumerId,
    pub kind: MediaKind,
    pub rtp_parameters: String,
}

/// How a call into the media engine ended. A failure carries the engine's
/// account of it, which is of no consequence here.
#[derive(Debug, PartialEq, Eq)]
pub enum EngineReply {
    ProducerTransportConnected(Result<(), String>),
    ConsumerTransportConnected(Result<(), String>),
    Produced(Result<ProducerId, String>),
    /// The outcome of a `Consume` request, with the stream and the session
    /// that the request named.
    Consumed {
        producer_id: ProducerId,
        session_id: SessionId,
        outcome: Result<ConsumerCreated, String>,
    },
}

/// Something for the embedding program to do on behalf of a session.
#[derive(Debug, Clone, PartialEq, Eq)]
pub enum Effect {
    /// Encode the message and send it to the client.
    Notify(ServerMessage),
    /// Send a text frame to the client as it is.
    Text(String),
    /// Send a binary frame to the client as it is.
    Binary(Vec<u8>),
    Ping(Vec<u8>),
    Pong(Vec<u8>),
    /// Close the connection, passing the reason on.
    Close(Option<CloseReason>),
    /// Hand the message to the hub, without waiting.
    Hub(InternalMessage),
    /// Hand the message to the hub and wait until it has taken it; tell the
    /// session if the hub cannot be reached.
    Announce(InternalMessage),
    /// Put the message into the session's own queue.
    Local(LocalScopeMessage),
    /// Put the request into the session's own queue.
    Request(ClientMessage),
    /// Issue the call; its outcome goes to `Session::engine_replied`.
    Engine(EngineRequest),
    /// Start calling `Session::heartbeat` at this interval, in nanoseconds.
    Heartbeat { interval: u64 },
    /// Stop the session.
    Stop,
}

/// What a `Effect` stands for: the same value, with texts and lists as
/// sequences.
pub enum EffectView {
    Notify(ServerMessageView),
    Text(Seq<char>),
    Binary(Seq<u8>),
    Ping(Seq<u8>),
    Pong(Seq<u8>),
    Close(Option<CloseReasonView>),
    Hub(InternalMessageView),
    Announce(InternalMessageView),
    Local(LocalScopeMessageView),
    Request(ClientMessageView),
    Engine(EngineRequestView),
    Heartbeat { interval: u64 },
    Stop,
}

impl View for Effect {
    type V = EffectView;

    open spec fn view(&self) -> EffectView {
        match *self {
            Effect::Notify(message) => EffectView::Notify(message@),
            Effect::Text(text) => EffectView::Text(text@),
            Effect::Binary(bytes) => EffectView::Binary(bytes@),
            Effect::Ping(bytes) => EffectView::Ping(bytes@),
            Effect::Pong(bytes) => EffectView::Pong(bytes@),
            Effect::Close(reason) => EffectView::Close(close_view(reason)),
            Effect::Hub(message) => EffectView::Hub(message@),
            Effect::Announce(message) => EffectView::Announce(message@),
            Effect::Local(message) => EffectView::Local(message@),
            Effect::Request(request) => EffectView::Request(request@),
            Effect::Engine(request) => EffectView::Engine(request@),
            Effect::Heartbeat { interval } => EffectView::Heartbeat { interval },
            Effect::Stop => EffectView::Stop,
        }
    }
}

/// No effect.
pub(crate) fn no_effect() -> (effects: Vec<Effect>)
    ensures
        views(effects@) == Seq::<EffectView>::empty(),
{
    let effects: Vec<Effect> = Vec::new();
    assert(views(effects@) =~= Seq::<EffectView>::empty());
    effects
}

/// One effect.
pub(crate) fn one_effect(first: Effect) -> (effects: Vec<Effect>)
    ensures
        views(effects@) == seq![first@],
{
    let mut effects: Vec<Effect> = Vec::new();
    effects.push(first);
    assert(views(effects@) =~= seq![first@]);
    effects
}

/// Two effects, in this order.
pub(crate) fn two_effects(first: Effect, second: Effect) -> (effects: Vec<Effect>)
    ensures
        views(effects@) == seq![first@, second@],
{
    let mut effects: Vec<Effect> = Vec::new();
    effects.push(first);
    effects.push(second);
    assert(views(effects@) =~= seq![first@, second@]);
    effects
}

/// Three effects, in this order.
pub(crate) fn three_effects(first: Effect, second: Effect, third: Effect) -> (effects: Vec<Effect>)
    ensures
        views(effects@) == seq![first@, second@, third@],
{
    let mut effects: Vec<Effect> = Vec::new();
    effects.push(first);
    effects.push(second);
    effects.push(third);
    assert(views(effects@) =~= seq![first@, second@, third@]);
    effects
}

} // verus!
