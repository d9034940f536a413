//! The state machine of one connection.
//!
//! A session is `Connecting` until it is started, `Active` while it serves
//! its client, `Stopping` once it has been told to stop and `Closed` after
//! it has left its room. It owns the display name of its participant, the
//! options of its two transports, the client's capabilities, and the
//! identifiers of the streams it produces and consumes.
//!
//! Times are readings of a monotonic clock, in nanoseconds.

use crate::identifier::{
    format_uuid, hyphenated, is_random_form, parse_uuid, parsed_uuid, random_uuid, IdError,
};
use crate::media::{ConsumerId, ProducerId};
use crate::view::{lemma_views_empty, lemma_views_push, pair_views, views};
use crate::webrtc::room::{roster_with, Room, RoomId};
use crate::websocket::effect::{
    arrival_view, no_effect, one_effect, three_effects, two_effects, Effect,
    EffectView, EngineReply, EngineRequest, EngineRequestView, Frame, FrameView, ProtocolError,
};
use crate::websocket::messages::internals::{
    Forwarded, ForwardedView, GlobalMessage, GlobalMessageView, GlobalScopeMessage,
    GlobalScopeMessageView, InternalMessage, InternalMessageView, LocalScopeMessage,
    LocalScopeMessageView,
};
use crate::websocket::messages::{
    ClientMessage, ClientMessageView, ServerMessage, ServerMessageView, TransportOptions,
    TransportOptionsView,
};
use std::collections::HashSet;
use vstd::prelude::*;
use vstd::string::*;

verus! {

/// How often a session is asked about its connection.
pub const HEARTBEAT_INTERVAL: u64 = 10_000_000_000;

/// How long a connection may stay silent before its session stops.
pub const CONNECTION_TIMEOUT: u64 = 15_000_000_000;

/// Identifier of one connection. It is drawn at random when the connection
/// starts.
#[derive(Debug, Clone, Copy, PartialEq, Eq, Hash, Structural)]
pub struct SessionId(pub u128);

impl SessionId {
    /// A fresh identifier. All that can be said of it is that it has the
    /// form of a randomly generated one.
    pub fn new() -> (id: SessionId)
        ensures
            is_random_form(id.0),
    {
        SessionId(random_uuid())
    }

    /// Reads an identifier from any of the textual forms that identifiers
    /// are written in.
    pub fn try_from(value: &str) -> (r: Result<SessionId, IdError>)
        ensures
            match parsed_uuid(value@) {
                Some(v) => r == Ok::<SessionId, IdError>(SessionId(v)),
                None => r == Err::<SessionId, IdError>(IdError::Malformed),
            },
    {
        match parse_uuid(value) {
            Ok(v) => Ok(SessionId(v)),
            Err(_) => Err(IdError::Malformed),
        }
    }

    /// The canonical text of the identifier, which `try_from` reads back.
    pub fn to_string(&self) -> (text: String)
        ensures
            text@ == hyphenated(self.0),
            parsed_uuid(text@) == Some(self.0),
    {
        format_uuid(self.0)
    }
}

/// Where a session stands in its life.
#[derive(Debug, Clone, Copy, PartialEq, Eq, Structural)]
pub enum Phase {
    Connecting,
    Active,
    Stopping,
    Closed,
}

/// The state of one connection.
pub struct Session {
    id: SessionId,
    room_id: RoomId,
    name: String,
    heartbeat: u64,
    rtp_capabilities: Option<String>,
    consumers: HashSet<u128>,
    producers: Vec<ProducerId>,
    producer_transport: TransportOptions,
    consumer_transport: TransportOptions,
    phase: Phase,
}

/// What a `Session` stands for: the same value, with texts and lists as
/// sequences.
pub struct SessionView {
    pub id: SessionId,
    pub room_id: RoomId,
    pub name: Seq<char>,
    /// When the client last gave a sign of life.
    pub heartbeat: u64,
    /// The client's capabilities, once it has sent them.
    pub rtp_capabilities: Option<Seq<char>>,
    /// The consumers that were created for this session.
    pub consumers: Set<ConsumerId>,
    /// The streams this session produces, oldest first.
    pub producers: Seq<ProducerId>,
    pub producer_transport: TransportOptionsView,
    pub consumer_transport: TransportOptionsView,
    pub phase: Phase,
}

impl View for Session {
    type V = SessionView;

    closed spec fn view(&self) -> SessionView {
        SessionView {
            id: self.id,
            room_id: self.room_id,
            name: self.name@,
            heartbeat: self.heartbeat,
            rtp_capabilities: match self.rtp_capabilities {
                Some(capabilities) => Some(capabilities@),
                None => None,
            },
            consumers: Set::new(|c: ConsumerId| self.consumers@.contains(c.0)),
            producers: self.producers@,
            producer_transport: self.producer_transport@,
            consumer_transport: self.consumer_transport@,
            phase: self.phase,
        }
    }
}

/// The text with which a session cannot be made for want of a transport.
pub open spec fn transport_failure_text(detail: Seq<char>) -> Seq<char> {
    "Failed to create producer transport: "@ + detail
}

/// The payload of the pings a session sends.
pub open spec fn ping_payload() -> Seq<u8> {
    seq![80u8, 73u8, 78u8, 71u8]
}

/// The room-scope message with which session `s` reports `message` to its
/// room.
pub open spec fn report(s: SessionView, message: GlobalMessageView) -> InternalMessageView {
    InternalMessageView::GlobalScope(
        GlobalScopeMessageView { session_id: s.id, room_id: s.room_id, message },
    )
}

/// The time that has passed from `since` to `now`; none if the clock reads
/// less than it did.
pub open spec fn elapsed(since: u64, now: u64) -> int {
    if now >= since {
        now - since
    } else {
        0
    }
}

/// What a session does with what arrives on its connection. Any sign of
/// life from the client renews the heartbeat; a broken or ended connection
/// stops the session; a decoded request is queued for `client_step`; text
/// that holds no request is answered with an error and nothing else.
pub open spec fn frame_step(s: SessionView, arrival: Result<FrameView, ProtocolError>, now: u64) -> (
    SessionView,
    Seq<EffectView>,
) {
    match arrival {
        Err(_) => (s, seq![EffectView::Text("FATAL ERROR"@), EffectView::Stop]),
        Ok(FrameView::Ping(payload)) => (
            SessionView { heartbeat: now, ..s },
            seq![EffectView::Pong(payload)],
        ),
        Ok(FrameView::Pong(_)) => (SessionView { heartbeat: now, ..s }, Seq::empty()),
        Ok(FrameView::Continuation) => (s, seq![EffectView::Stop]),
        Ok(FrameView::Close(reason)) => (s, seq![EffectView::Close(reason), EffectView::Stop]),
        Ok(FrameView::Binary(bytes)) => (
            s,
            seq![
                EffectView::Hub(
                    report(s, GlobalMessageView::ForwardMessage(ForwardedView::Binary(bytes))),
                ),
            ],
        ),
        Ok(FrameView::Text(Some(request))) => (s, seq![EffectView::Request(request)]),
        Ok(FrameView::Text(None)) => (
            s,
            seq![
                EffectView::Notify(ServerMessageView::Error { error: "Unable to parse JSON"@ }),
            ],
        ),
        Ok(FrameView::Nop) => (s, Seq::empty()),
    }
}

/// The notifications that tell the client of session `own` of the streams
/// in a listing: one for each stream of another session, in the listing's
/// order.
pub open spec fn announcements(own: SessionId, listing: Seq<(SessionId, ProducerId)>) -> Seq<
    EffectView,
>
    decreases listing.len(),
{
    if listing.len() == 0 {
        Seq::empty()
    } else if listing.last().0 != own {
        announcements(own, listing.drop_last()).push(
            EffectView::Notify(
                ServerMessageView::ProducerAdded {
                    session_id: listing.last().0,
                    producer_id: listing.last().1,
                },
            ),
        )
    } else {
        announcements(own, listing.drop_last())
    }
}

/// A list of streams without every occurrence of `id`.
pub open spec fn without(producers: Seq<ProducerId>, id: ProducerId) -> Seq<ProducerId>
    decreases producers.len(),
{
    if producers.len() == 0 {
        Seq::empty()
    } else if producers.last() != id {
        without(producers.drop_last(), id).push(producers.last())
    } else {
        without(producers.drop_last(), id)
    }
}

/// What a session does with a request of its client other than `Init`.
///
/// Requests that need the media engine become calls for the embedding
/// program to issue. A `Consume` before the client has sent its
/// capabilities stops the session and issues no call. A `ConsumerResume`
/// for a consumer that the session does not have, and a `RemoveProducer`
/// for a stream that is not its own, do nothing.
pub open spec fn client_step(s: SessionView, request: ClientMessageView) -> (
    SessionView,
    Seq<EffectView>,
) {
    match request {
        ClientMessageView::Init { rtp_capabilities } => (
            SessionView { rtp_capabilities: Some(rtp_capabilities), ..s },
            Seq::empty(),
        ),
        ClientMessageView::ConnectProducerTransport { dtls_parameters } => (
            s,
            seq![
                EffectView::Engine(EngineRequestView::ConnectProducerTransport { dtls_parameters }),
            ],
        ),
        ClientMessageView::Produce { kind, rtp_parameters } => (
            s,
            seq![EffectView::Engine(EngineRequestView::Produce { kind, rtp_parameters })],
        ),
        ClientMessageView::ConnectConsumerTransport { dtls_parameters } => (
            s,
            seq![
                EffectView::Engine(EngineRequestView::ConnectConsumerTransport { dtls_parameters }),
            ],
        ),
        ClientMessageView::Consume { producer_id, session_id } => match s.rtp_capabilities {
            Some(rtp_capabilities) => (
                s,
                seq![
                    EffectView::Engine(
                        EngineRequestView::Consume {
                            producer_id,
                            session_id,
                            rtp_capabilities,
                            paused: true,
                        },
                    ),
                ],
            ),
            None => (s, seq![EffectView::Local(LocalScopeMessageView::Stop)]),
        },
        ClientMessageView::ConsumerResume { id } => if s.consumers.contains(id) {
            (s, seq![EffectView::Engine(EngineRequestView::ResumeConsumer { id })])
        } else {
            (s, Seq::empty())
        },
        ClientMessageView::RemoveProducer { id } => if s.producers.contains(id) {
            (
                SessionView { producers: without(s.producers, id), ..s },
                seq![EffectView::Hub(report(s, GlobalMessageView::RemoveProducer(id)))],
            )
        } else {
            (s, Seq::empty())
        },
        ClientMessageView::Text { text } => (
            s,
            seq![
                EffectView::Hub(
                    report(s, GlobalMessageView::ForwardMessage(ForwardedView::Text(text))),
                ),
            ],
        ),
    }
}

/// True where `after` and `effects` are a way in which a session in state
/// `before` may take `request` in a room.
///
/// On `Init` the session keeps the capabilities and tells its client of
/// every stream that another session produces into the room; the order of
/// these notifications follows one of the room's listings. Every other
/// request is taken as `client_step` says.
pub open spec fn client_outcome<R>(
    before: SessionView,
    room: Room<R>,
    request: ClientMessageView,
    after: SessionView,
    effects: Seq<EffectView>,
) -> bool {
    match request {
        ClientMessageView::Init { rtp_capabilities } => {
            &&& after == client_step(before, request).0
            &&& exists|listing: Seq<(SessionId, ProducerId)>|
                room.lists(listing) && effects == #[trigger] announcements(before.id, listing)
        },
        _ => (after, effects) == client_step(before, request),
    }
}

/// What a session tells its client of an event in its room: nothing of an
/// event that stems from the session itself, and nothing of a session that
/// left.
pub open spec fn global_step(s: SessionView, message: GlobalScopeMessageView) -> Seq<EffectView> {
    if message.session_id == s.id {
        Seq::empty()
    } else {
        match message.message {
            GlobalMessageView::AddSession(name) => seq![
                EffectView::Notify(
                    ServerMessageView::NewComer {
                        session_id: message.session_id,
                        name,
                        just_joined: true,
                    },
                ),
            ],
            GlobalMessageView::AddProducer(producer_id) => seq![
                EffectView::Notify(
                    ServerMessageView::ProducerAdded {
                        session_id: message.session_id,
                        producer_id,
                    },
                ),
            ],
            GlobalMessageView::RemoveProducer(producer_id) => seq![
                EffectView::Notify(
                    ServerMessageView::ProducerRemoved {
                        session_id: message.session_id,
                        producer_id,
                    },
                ),
            ],
            GlobalMessageView::ForwardMessage(ForwardedView::Text(text)) => seq![
                EffectView::Notify(
                    ServerMessageView::Text { sender_id: message.session_id, text },
                ),
            ],
            GlobalMessageView::ForwardMessage(ForwardedView::Binary(bytes)) => seq![
                EffectView::Binary(bytes),
            ],
            GlobalMessageView::RemoveSession => Seq::empty(),
        }
    }
}

/// The notifications that tell the client of session `own` who was in the
/// room before it: one for each entry whose text reads as the identifier of
/// another session, in the order of the entries.
pub open spec fn introductions(own: SessionId, members: Seq<(Seq<char>, Seq<char>)>) -> Seq<
    EffectView,
>
    decreases members.len(),
{
    if members.len() == 0 {
        Seq::empty()
    } else {
        let earlier = introductions(own, members.drop_last());
        match parsed_uuid(members.last().0) {
            Some(v) => if SessionId(v) != own {
                earlier.push(
                    EffectView::Notify(
                        ServerMessageView::NewComer {
                            session_id: SessionId(v),
                            name: members.last().1,
                            just_joined: false,
                        },
                    ),
                )
            } else {
                earlier
            },
            None => earlier,
        }
    }
}

/// What a session does with a message meant for it alone.
pub open spec fn local_step(s: SessionView, message: LocalScopeMessageView) -> (
    SessionView,
    Seq<EffectView>,
) {
    match message {
        LocalScopeMessageView::SaveProducer(id) => (
            SessionView { producers: s.producers.push(id), ..s },
            Seq::empty(),
        ),
        LocalScopeMessageView::SaveConsumer(id) => (
            SessionView { consumers: s.consumers.insert(id), ..s },
            Seq::empty(),
        ),
        LocalScopeMessageView::PresentMembers(members) => (s, introductions(s.id, members)),
        LocalScopeMessageView::Stop => (s, seq![EffectView::Stop]),
    }
}

/// What a session does with any message from the hub or from itself.
pub open spec fn internal_step(s: SessionView, message: InternalMessageView) -> (
    SessionView,
    Seq<EffectView>,
) {
    match message {
        InternalMessageView::GlobalScope(message) => (s, global_step(s, message)),
        InternalMessageView::LocalScope(message) => local_step(s, message),
    }
}

/// What a session does when it is asked about its connection: it pings the
/// client, after having stopped if the client has been silent for more than
/// `CONNECTION_TIMEOUT`.
pub open spec fn heartbeat_step(s: SessionView, now: u64) -> Seq<EffectView> {
    if elapsed(s.heartbeat, now) > CONNECTION_TIMEOUT {
        seq![EffectView::Stop, EffectView::Ping(ping_payload())]
    } else {
        seq![EffectView::Ping(ping_payload())]
    }
}

/// What a session does when it starts: it has its heartbeat started, joins
/// its room at the hub, and sends its client the `Init` message.
pub open spec fn start_effects(s: SessionView, router_rtp_capabilities: Seq<char>) -> Seq<
    EffectView,
> {
    seq![
        EffectView::Heartbeat { interval: HEARTBEAT_INTERVAL },
        EffectView::Announce(report(s, GlobalMessageView::AddSession(s.name))),
        EffectView::Notify(
            ServerMessageView::Init {
                room_id: s.room_id,
                consumer_transport_options: s.consumer_transport,
                producer_transport_options: s.producer_transport,
                router_rtp_capabilities,
            },
        ),
    ]
}

/// The messages with which session `s` withdraws `producers` from its room,
/// one for each stream, in order.
pub open spec fn retractions(s: SessionView, producers: Seq<ProducerId>) -> Seq<EffectView> {
    Seq::new(
        producers.len(),
        |i: int| EffectView::Hub(report(s, GlobalMessageView::RemoveProducer(producers[i]))),
    )
}

/// What follows from the outcome of a call into the media engine that was
/// issued for session `session_id` in room `room_id`. A call that failed
/// stops the session. A transport that was connected is acknowledged to the
/// client. A producer that was created is acknowledged to the client,
/// reported to the room and kept by the session; a consumer that was
/// created is acknowledged to the client and kept by the session.
pub open spec fn reply_effects(session_id: SessionId, room_id: RoomId, reply: EngineReply) -> Seq<
    EffectView,
> {
    match reply {
        EngineReply::ProducerTransportConnected(Ok(_)) => seq![
            EffectView::Notify(ServerMessageView::ConnectedProducerTransport),
        ],
        EngineReply::ConsumerTransportConnected(Ok(_)) => seq![
            EffectView::Notify(ServerMessageView::ConnectedConsumerTransport),
        ],
        EngineReply::Produced(Ok(id)) => seq![
            EffectView::Notify(ServerMessageView::Produced { id }),
            EffectView::Hub(
                InternalMessageView::GlobalScope(
                    GlobalScopeMessageView {
                        session_id,
                        room_id,
                        message: GlobalMessageView::AddProducer(id),
                    },
                ),
            ),
            EffectView::Local(LocalScopeMessageView::SaveProducer(id)),
        ],
        EngineReply::Consumed { producer_id, session_id: source, outcome: Ok(consumer) } => seq![
            EffectView::Notify(
                ServerMessageView::Consumed {
                    id: consumer.id,
                    producer_id,
                    session_id: source,
                    kind: consumer.kind,
                    rtp_parameters: consumer.rtp_parameters@,
                },
            ),
            EffectView::Local(LocalScopeMessageView::SaveConsumer(consumer.id)),
        ],
        _ => seq![EffectView::Local(LocalScopeMessageView::Stop)],
    }
}

/// The roster of a room after the outcome of a call into the media engine
/// that was issued for session `session_id`: a producer that was created is
/// added to the session's streams, and nothing else changes the roster.
pub open spec fn roster_after_reply(
    roster: Map<SessionId, Seq<ProducerId>>,
    session_id: SessionId,
    reply: EngineReply,
) -> Map<SessionId, Seq<ProducerId>> {
    match reply {
        EngineReply::Produced(Ok(id)) => roster_with(roster, session_id, id),
        _ => roster,
    }
}

/// What a session does when the hub could not be reached with a message
/// that the session waited on: it stops, unless it is stopping already.
pub open spec fn hub_failure_effects(s: SessionView) -> Seq<EffectView> {
    if s.phase == Phase::Stopping || s.phase == Phase::Closed {
        Seq::empty()
    } else {
        seq![EffectView::Stop]
    }
}

/// The room-scope message that reports `message` of session `session_id`
/// in room `room_id`.
fn room_report(session_id: SessionId, room_id: RoomId, message: GlobalMessage) -> (r:
    InternalMessage)
    ensures
        r@ == InternalMessageView::GlobalScope(
            GlobalScopeMessageView { session_id, room_id, message: message@ },
        ),
{
    InternalMessage::GlobalScope(GlobalScopeMessage { session_id, room_id, message })
}

/// Whether `id` is among `producers`.
fn holds_producer(producers: &Vec<ProducerId>, id: ProducerId) -> (found: bool)
    ensures
        found == producers@.contains(id),
{
    let mut i: usize = 0;
    while i < producers.len()
        invariant
            i <= producers.len(),
            forall|k: int| 0 <= k < i ==> producers@[k] != id,
        decreases producers.len() - i,
    {
        if producers[i] == id {
            return true;
        }
        i = i + 1;
    }
    false
}

/// `producers` without every occurrence of `id`.
fn drop_producer(producers: &Vec<ProducerId>, id: ProducerId) -> (kept: Vec<ProducerId>)
    ensures
        kept@ == without(producers@, id),
{
    let mut kept: Vec<ProducerId> = Vec::new();
    let mut i: usize = 0;
    while i < producers.len()
        invariant
            i <= producers.len(),
            kept@ == without(producers@.take(i as int), id),
        decreases producers.len() - i,
    {
        proof {
            let next = producers@.take(i as int + 1);
            assert(next.drop_last() =~= producers@.take(i as int));
            assert(next.last() == producers@[i as int]);
        }
        if producers[i] != id {
            kept.push(producers[i]);
        }
        i = i + 1;
    }
    assert(producers@.take(i as int) =~= producers@);
    kept
}

impl Session {
    /// Makes the session of a participant called `name` in room `room_id`,
    /// given what the media engine made of the requests for its two
    /// transports, the outbound one first. Without both transports there is
    /// no session; the failure of the first one is the one reported.
    pub fn new(
        room_id: RoomId,
        name: String,
        now: u64,
        producer: Result<TransportOptions, String>,
        consumer: Result<TransportOptions, String>,
    ) -> (r: Result<Session, String>)
        ensures
            match (producer, consumer) {
                (Err(detail), _) => r matches Err(text) && text@ == transport_failure_text(
                    detail@,
                ),
                (Ok(_), Err(detail)) => r matches Err(text) && text@ == transport_failure_text(
                    detail@,
                ),
                (Ok(outbound), Ok(inbound)) => r matches Ok(session) && is_random_form(
                    session@.id.0,
                ) && session@ == (SessionView {
                    id: session@.id,
                    room_id,
                    name: name@,
                    heartbeat: now,
                    rtp_capabilities: None,
                    consumers: Set::empty(),
                    producers: Seq::empty(),
                    producer_transport: outbound@,
                    consumer_transport: inbound@,
                    phase: Phase::Connecting,
                }),
            },
    {
        let producer_transport = match producer {
            Ok(options) => options,
            Err(detail) => {
                return Err(
                    String::from_str("Failed to create producer transport: ").concat(
                        detail.as_str(),
                    ),
                );
            },
        };
        let consumer_transport = match consumer {
            Ok(options) => options,
            Err(detail) => {
                return Err(
                    String::from_str("Failed to create producer transport: ").concat(
                        detail.as_str(),
                    ),
                );
            },
        };
        let session = Session {
            id: SessionId::new(),
            room_id,
            name,
            heartbeat: now,
            rtp_capabilities: None,
            consumers: HashSet::new(),
            producers: Vec::new(),
            producer_transport,
            consumer_transport,
            phase: Phase::Connecting,
        };
        assert(session@.consumers =~= Set::<ConsumerId>::empty());
        Ok(session)
    }

    /// The identifier of the session.
    pub fn id(&self) -> (id: SessionId)
        ensures
            id == self@.id,
    {
        self.id
    }

    /// The room that the session belongs to.
    pub fn room_id(&self) -> (id: RoomId)
        ensures
            id == self@.room_id,
    {
        self.room_id
    }

    /// Where the session stands in its life.
    pub fn phase(&self) -> (phase: Phase)
        ensures
            phase == self@.phase,
    {
        self.phase
    }

    /// The display name of the participant.
    pub fn name(&self) -> (name: &String)
        ensures
            name@ == self@.name,
    {
        &self.name
    }

    /// When the client last gave a sign of life.
    pub fn last_heartbeat(&self) -> (at: u64)
        ensures
            at == self@.heartbeat,
    {
        self.heartbeat
    }

    /// Whether the client has sent its capabilities.
    pub fn has_capabilities(&self) -> (known: bool)
        ensures
            known == (self@.rtp_capabilities is Some),
    {
        self.rtp_capabilities.is_some()
    }

    /// Whether the session has the consumer `id`.
    pub fn has_consumer(&self, id: ConsumerId) -> (found: bool)
        ensures
            found == self@.consumers.contains(id),
    {
        broadcast use vstd::std_specs::hash::group_hash_axioms;

        self.consumers.contains(&id.0)
    }

    /// The streams that the session produces, oldest first.
    pub fn producers(&self) -> (producers: &Vec<ProducerId>)
        ensures
            producers@ == self@.producers,
    {
        &self.producers
    }

    /// Starts the session.
    pub fn started(&mut self, router_rtp_capabilities: String) -> (effects: Vec<Effect>)
        ensures
            final(self)@ == (SessionView { phase: Phase::Active, ..old(self)@ }),
            views(effects@) == start_effects(old(self)@, router_rtp_capabilities@),
    {
        self.phase = Phase::Active;
        three_effects(
            Effect::Heartbeat { interval: HEARTBEAT_INTERVAL },
            Effect::Announce(
                room_report(self.id, self.room_id, GlobalMessage::AddSession(self.name.clone())),
            ),
            Effect::Notify(
                ServerMessage::Init {
                    room_id: self.room_id,
                    consumer_transport_options: self.consumer_transport.duplicate(),
                    producer_transport_options: self.producer_transport.duplicate(),
                    router_rtp_capabilities,
                },
            ),
        )
    }

    /// Asks the session about its connection, at time `now`.
    pub fn heartbeat(&self, now: u64) -> (effects: Vec<Effect>)
        ensures
            views(effects@) == heartbeat_step(self@, now),
    {
        let mut payload: Vec<u8> = Vec::new();
        payload.push(80u8);
        payload.push(73u8);
        payload.push(78u8);
        payload.push(71u8);
        assert(payload@ =~= ping_payload());
        let silent: u64 = if now >= self.heartbeat {
            now - self.heartbeat
        } else {
            0
        };
        if silent > CONNECTION_TIMEOUT {
            two_effects(Effect::Stop, Effect::Ping(payload))
        } else {
            one_effect(Effect::Ping(payload))
        }
    }

    /// Takes what arrived on the connection at time `now`.
    pub fn handle_frame(&mut self, arrival: Result<Frame, ProtocolError>, now: u64) -> (effects:
        Vec<Effect>)
        ensures
            (final(self)@, views(effects@)) == frame_step(old(self)@, arrival_view(arrival), now),
    {
        match arrival {
            Err(_) => two_effects(Effect::Text(String::from_str("FATAL ERROR")), Effect::Stop),
            Ok(Frame::Ping(payload)) => {
                self.heartbeat = now;
                one_effect(Effect::Pong(payload))
            },
            Ok(Frame::Pong(_)) => {
                self.heartbeat = now;
                no_effect()
            },
            Ok(Frame::Continuation) => one_effect(Effect::Stop),
            Ok(Frame::Close(reason)) => two_effects(Effect::Close(reason), Effect::Stop),
            Ok(Frame::Binary(bytes)) => one_effect(
                Effect::Hub(
                    room_report(
                        self.id,
                        self.room_id,
                        GlobalMessage::ForwardMessage(Forwarded::Binary(bytes)),
                    ),
                ),
            ),
            Ok(Frame::Text(Some(request))) => one_effect(Effect::Request(request)),
            Ok(Frame::Text(None)) => one_effect(
                Effect::Notify(
                    ServerMessage::Error { error: String::from_str("Unable to parse JSON") },
                ),
            ),
            Ok(Frame::Nop) => no_effect(),
        }
    }

    /// The notifications of `announcements`, for a listing of the room.
    pub fn announce_existing(own: SessionId, listing: &Vec<(SessionId, ProducerId)>) -> (effects:
        Vec<Effect>)
        ensures
            views(effects@) == announcements(own, listing@),
    {
        let mut effects: Vec<Effect> = Vec::new();
        let mut i: usize = 0;
        proof {
            lemma_views_empty::<Effect>();
        }
        while i < listing.len()
            invariant
                i <= listing.len(),
                views(effects@) == announcements(own, listing@.take(i as int)),
            decreases listing.len() - i,
        {
            proof {
                let next = listing@.take(i as int + 1);
                assert(next.drop_last() =~= listing@.take(i as int));
                assert(next.last() == listing@[i as int]);
            }
            let (session_id, producer_id) = listing[i];
            if session_id != own {
                let effect = Effect::Notify(ServerMessage::ProducerAdded { session_id, producer_id });
                proof {
                    lemma_views_push(effects@, effect);
                }
                effects.push(effect);
            }
            i = i + 1;
        }
        assert(listing@.take(i as int) =~= listing@);
        effects
    }

    /// Takes a request of the client. `room` is the session's room.
    pub fn handle_client<R>(&mut self, room: &Room<R>, request: ClientMessage) -> (effects: Vec<
        Effect,
    >)
        ensures
            client_outcome(old(self)@, *room, request@, final(self)@, views(effects@)),
    {
        broadcast use vstd::std_specs::hash::group_hash_axioms;

        match request {
            ClientMessage::Init { rtp_capabilities } => {
                self.rtp_capabilities = Some(rtp_capabilities);
                let listing = room.all_producers();
                Session::announce_existing(self.id, &listing)
            },
            ClientMessage::ConnectProducerTransport { dtls_parameters } => one_effect(
                Effect::Engine(EngineRequest::ConnectProducerTransport { dtls_parameters }),
            ),
            ClientMessage::Produce { kind, rtp_parameters } => one_effect(
                Effect::Engine(EngineRequest::Produce { kind, rtp_parameters }),
            ),
            ClientMessage::ConnectConsumerTransport { dtls_parameters } => one_effect(
                Effect::Engine(EngineRequest::ConnectConsumerTransport { dtls_parameters }),
            ),
            ClientMessage::Consume { producer_id, session_id } => {
                match &self.rtp_capabilities {
                    Some(capabilities) => one_effect(
                        Effect::Engine(
                            EngineRequest::Consume {
                                producer_id,
                                session_id,
                                rtp_capabilities: capabilities.clone(),
                                paused: true,
                            },
                        ),
                    ),
                    None => one_effect(Effect::Local(LocalScopeMessage::Stop)),
                }
            },
            ClientMessage::ConsumerResume { id } => {
                if self.consumers.contains(&id.0) {
                    one_effect(Effect::Engine(EngineRequest::ResumeConsumer { id }))
                } else {
                    no_effect()
                }
            },
            ClientMessage::RemoveProducer { id } => {
                if holds_producer(&self.producers, id) {
                    self.producers = drop_producer(&self.producers, id);
                    one_effect(
                        Effect::Hub(
                            room_report(self.id, self.room_id, GlobalMessage::RemoveProducer(id)),
                        ),
                    )
                } else {
                    no_effect()
                }
            },
            ClientMessage::Text { text } => one_effect(
                Effect::Hub(
                    room_report(
                        self.id,
                        self.room_id,
                        GlobalMessage::ForwardMessage(Forwarded::Text(text)),
                    ),
                ),
            ),
        }
    }

    /// Takes an event of the session's room.
    pub fn handle_global(&self, message: GlobalScopeMessage) -> (effects: Vec<Effect>)
        ensures
            views(effects@) == global_step(self@, message@),
    {
        let session_id = message.session_id;
        if session_id == self.id {
            return no_effect();
        }
        match message.message {
            GlobalMessage::AddSession(name) => one_effect(
                Effect::Notify(ServerMessage::NewComer { session_id, name, just_joined: true }),
            ),
            GlobalMessage::AddProducer(producer_id) => one_effect(
                Effect::Notify(ServerMessage::ProducerAdded { session_id, producer_id }),
            ),
            GlobalMessage::RemoveProducer(producer_id) => one_effect(
                Effect::Notify(ServerMessage::ProducerRemoved { session_id, producer_id }),
            ),
            GlobalMessage::ForwardMessage(Forwarded::Text(text)) => one_effect(
                Effect::Notify(ServerMessage::Text { sender_id: session_id, text }),
            ),
            GlobalMessage::ForwardMessage(Forwarded::Binary(bytes)) => one_effect(
                Effect::Binary(bytes),
            ),
            GlobalMessage::RemoveSession => no_effect(),
        }
    }

    /// The notifications of `introductions`, for the members that the hub
    /// listed.
    pub fn introduce(own: SessionId, members: &Vec<(String, String)>) -> (effects: Vec<Effect>)
        ensures
            views(effects@) == introductions(own, pair_views(members@)),
    {
        let mut effects: Vec<Effect> = Vec::new();
        let mut i: usize = 0;
        proof {
            lemma_views_empty::<Effect>();
            assert(pair_views(members@.take(0)) =~= Seq::<(Seq<char>, Seq<char>)>::empty());
        }
        while i < members.len()
            invariant
                i <= members.len(),
                views(effects@) == introductions(own, pair_views(members@.take(i as int))),
            decreases members.len() - i,
        {
            proof {
                let next = pair_views(members@.take(i as int + 1));
                assert(next.drop_last() =~= pair_views(members@.take(i as int)));
                assert(next.last() == (members@[i as int].0@, members@[i as int].1@));
            }
            match SessionId::try_from(members[i].0.as_str()) {
                Ok(session_id) => {
                    if session_id != own {
                        let effect = Effect::Notify(
                            ServerMessage::NewComer {
                                session_id,
                                name: members[i].1.clone(),
                                just_joined: false,
                            },
                        );
                        proof {
                            lemma_views_push(effects@, effect);
                        }
                        effects.push(effect);
                    }
                },
                Err(_) => {},
            }
            i = i + 1;
        }
        assert(members@.take(i as int) =~= members@);
        effects
    }

    /// Takes a message meant for this session alone.
    pub fn handle_local(&mut self, message: LocalScopeMessage) -> (effects: Vec<Effect>)
        ensures
            (final(self)@, views(effects@)) == local_step(old(self)@, message@),
    {
        broadcast use vstd::std_specs::hash::group_hash_axioms;

        match message {
            LocalScopeMessage::SaveProducer(id) => {
                self.producers.push(id);
                no_effect()
            },
            LocalScopeMessage::SaveConsumer(id) => {
                self.consumers.insert(id.0);
                assert(final(self)@.consumers =~= old(self)@.consumers.insert(id));
                no_effect()
            },
            LocalScopeMessage::PresentMembers(members) => Session::introduce(self.id, &members),
            LocalScopeMessage::Stop => one_effect(Effect::Stop),
        }
    }

    /// Takes any message from the hub or from the session's own queue.
    pub fn handle_internal(&mut self, message: InternalMessage) -> (effects: Vec<Effect>)
        ensures
            (final(self)@, views(effects@)) == internal_step(old(self)@, message@),
    {
        match message {
            InternalMessage::GlobalScope(message) => self.handle_global(message),
            InternalMessage::LocalScope(message) => self.handle_local(message),
        }
    }
    /// Takes the outcome of a call into the media engine that was issued
    /// for session `session_id`. `room` is that session's room.
    pub fn engine_replied<R>(session_id: SessionId, room: &mut Room<R>, reply: EngineReply) -> (effects:
        Vec<Effect>)
        ensures
            views(effects@) == reply_effects(session_id, old(room).spec_id(), reply),
            final(room)@ == roster_after_reply(old(room)@, session_id, reply),
            final(room).spec_id() == old(room).spec_id(),
            final(room).spec_router() == old(room).spec_router(),
    {
        match reply {
            EngineReply::ProducerTransportConnected(Ok(_)) => one_effect(
                Effect::Notify(ServerMessage::ConnectedProducerTransport),
            ),
            EngineReply::ConsumerTransportConnected(Ok(_)) => one_effect(
                Effect::Notify(ServerMessage::ConnectedConsumerTransport),
            ),
            EngineReply::Produced(Ok(id)) => {
                room.add_producer(session_id, id);
                three_effects(
                    Effect::Notify(ServerMessage::Produced { id }),
                    Effect::Hub(room_report(session_id, room.id(), GlobalMessage::AddProducer(id))),
                    Effect::Local(LocalScopeMessage::SaveProducer(id)),
                )
            },
            EngineReply::Consumed { producer_id, session_id: source, outcome: Ok(consumer) } => {
                two_effects(
                    Effect::Notify(
                        ServerMessage::Consumed {
                            id: consumer.id,
                            producer_id,
                            session_id: source,
                            kind: consumer.kind,
                            rtp_parameters: consumer.rtp_parameters,
                        },
                    ),
                    Effect::Local(LocalScopeMessage::SaveConsumer(consumer.id)),
                )
            },
            _ => one_effect(Effect::Local(LocalScopeMessage::Stop)),
        }
    }

    /// Tells the session that the hub could not be reached with a message
    /// that the session waited on.
    pub fn hub_unreachable(&self) -> (effects: Vec<Effect>)
        ensures
            views(effects@) == hub_failure_effects(self@),
    {
        match self.phase {
            Phase::Stopping | Phase::Closed => no_effect(),
            _ => one_effect(Effect::Stop),
        }
    }

    /// Begins to stop the session: the hub is told that the session leaves.
    pub fn stopping(&mut self) -> (effects: Vec<Effect>)
        ensures
            final(self)@ == (SessionView { phase: Phase::Stopping, ..old(self)@ }),
            views(effects@) == seq![
                EffectView::Announce(report(old(self)@, GlobalMessageView::RemoveSession)),
            ],
    {
        self.phase = Phase::Stopping;
        one_effect(
            Effect::Announce(room_report(self.id, self.room_id, GlobalMessage::RemoveSession)),
        )
    }

    /// Ends the session. The first call takes the session off the roster of
    /// `room`, its room, and withdraws each stream that the roster held for
    /// it; any later call does nothing.
    pub fn close<R>(&mut self, room: &mut Room<R>) -> (effects: Vec<Effect>)
        ensures
            final(room).spec_id() == old(room).spec_id(),
            final(room).spec_router() == old(room).spec_router(),
            old(self)@.phase == Phase::Closed ==> final(self)@ == old(self)@ && final(room)@ == old(
                room,
            )@ && views(effects@) == Seq::<EffectView>::empty(),
            old(self)@.phase != Phase::Closed ==> final(self)@ == (SessionView {
                phase: Phase::Closed,
                ..old(self)@
            }) && final(room)@ == old(room)@.remove(old(self)@.id) && views(effects@)
                == retractions(old(self)@, old(room).produced_by(old(self)@.id)),
    {
        if self.phase == Phase::Closed {
            return no_effect();
        }
        self.phase = Phase::Closed;
        let producers = room.remove_session(self.id);
        let mut effects: Vec<Effect> = Vec::new();
        let mut i: usize = 0;
        proof {
            lemma_views_empty::<Effect>();
            assert(retractions(old(self)@, producers@.take(0)) =~= Seq::<EffectView>::empty());
        }
        while i < producers.len()
            invariant
                i <= producers.len(),
                self.id == old(self)@.id,
                self.room_id == old(self)@.room_id,
                views(effects@) == retractions(old(self)@, producers@.take(i as int)),
            decreases producers.len() - i,
        {
            let effect = Effect::Hub(
                room_report(self.id, self.room_id, GlobalMessage::RemoveProducer(producers[i])),
            );
            proof {
                lemma_views_push(effects@, effect);
                assert(retractions(old(self)@, producers@.take(i as int + 1)) =~= retractions(
                    old(self)@,
                    producers@.take(i as int),
                ).push(effect@));
            }
            effects.push(effect);
            i = i + 1;
        }
        assert(producers@.take(i as int) =~= producers@);
        effects
    }
}

} // verus!
