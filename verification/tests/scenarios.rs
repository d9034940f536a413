use rooms::media::{MediaKind, ProducerId, TransportId};
use rooms::webrtc::registry::Registry;
use rooms::webrtc::room::{Room, RoomId};
use rooms::websocket::effect::{Effect, EngineReply, EngineRequest, Frame};
use rooms::websocket::messages::internals::{InternalMessage, LocalScopeMessage};
use rooms::websocket::messages::{ClientMessage, ServerMessage, TransportOptions};
use rooms::websocket::server::Step;
use rooms::websocket::session::Phase;
use rooms::websocket::store::{members_key, name_key, StoreReply, StoreRequest};
use rooms::websocket::{Server, Session, SessionId};
use std::collections::{BTreeMap, BTreeSet, VecDeque};

const ROOM: RoomId = RoomId(0xaa);

/// What happens to one participant: its session and what its client saw.
struct Seat {
    session: Session,
    inbox: Vec<ServerMessage>,
    stopped: bool,
}

/// A whole service in memory: a registry with one room, the hub, the
/// presence store, a media engine that numbers its producers, and the
/// participants.
struct World {
    registry: Registry<()>,
    room: Option<Room<()>>,
    server: Server,
    members: BTreeSet<String>,
    names: BTreeMap<String, String>,
    seats: Vec<Seat>,
    next_producer: u128,
    routers_created: u32,
}

fn world() -> World {
    World {
        registry: Registry::new(),
        room: None,
        server: Server::new(),
        members: BTreeSet::new(),
        names: BTreeMap::new(),
        seats: Vec::new(),
        next_producer: 1,
        routers_created: 0,
    }
}

fn options(id: u128) -> TransportOptions {
    TransportOptions {
        id: TransportId(id),
        dtls_parameters: "dtls".to_string(),
        ice_candidates: vec![],
        ice_parameters: "ice".to_string(),
    }
}

fn seat_of(world: &World, id: SessionId) -> Option<usize> {
    world.seats.iter().position(|seat| seat.session.id() == id)
}

fn perform(world: &mut World, request: StoreRequest) -> StoreReply {
    match request {
        StoreRequest::Open => StoreReply::Done,
        StoreRequest::Members { key } => {
            assert_eq!(key, members_key(ROOM));
            StoreReply::Members(world.members.iter().cloned().collect())
        }
        StoreRequest::Names { keys } => {
            StoreReply::Names(keys.iter().map(|key| world.names.get(key).cloned()).collect())
        }
        StoreRequest::AddMember { member, .. } => {
            world.members.insert(member);
            StoreReply::Done
        }
        StoreRequest::SetName { key, name } => {
            world.names.insert(key, name);
            StoreReply::Done
        }
        StoreRequest::RemoveMember { member, .. } => {
            world.members.remove(&member);
            StoreReply::Done
        }
        StoreRequest::DeleteName { key } => {
            world.names.remove(&key);
            StoreReply::Done
        }
    }
}

fn to_hub(world: &mut World, message: InternalMessage, queue: &mut VecDeque<(usize, Effect)>) {
    let mut step = world.server.handle(message);
    let deliveries = loop {
        match step {
            Step::Ask { request, then } => {
                let reply = perform(world, request);
                step = world.server.resume(then, reply);
            }
            Step::Done(deliveries) => break deliveries,
        }
    };
    for delivery in deliveries {
        if let Some(at) = seat_of(world, delivery.to) {
            if world.seats[at].session.phase() != Phase::Closed {
                let effects = world.seats[at].session.handle_internal(delivery.message);
                queue.extend(effects.into_iter().map(|e| (at, e)));
            }
        }
    }
}

fn settle(world: &mut World, at: usize, effects: Vec<Effect>) {
    let mut queue: VecDeque<(usize, Effect)> = effects.into_iter().map(|e| (at, e)).collect();
    while let Some((at, effect)) = queue.pop_front() {
        match effect {
            Effect::Notify(message) => world.seats[at].inbox.push(message),
            Effect::Hub(message) | Effect::Announce(message) => to_hub(world, message, &mut queue),
            Effect::Local(message) => {
                let effects = world.seats[at].session.handle_local(message);
                queue.extend(effects.into_iter().map(|e| (at, e)));
            }
            Effect::Request(request) => {
                let room = world.room.as_ref().unwrap();
                let effects = world.seats[at].session.handle_client(room, request);
                queue.extend(effects.into_iter().map(|e| (at, e)));
            }
            Effect::Engine(request) => {
                let id = world.seats[at].session.id();
                let reply = match request {
                    EngineRequest::ConnectProducerTransport { .. } => {
                        EngineReply::ProducerTransportConnected(Ok(()))
                    }
                    EngineRequest::ConnectConsumerTransport { .. } => {
                        EngineReply::ConsumerTransportConnected(Ok(()))
                    }
                    EngineRequest::Produce { .. } => {
                        let producer = ProducerId(world.next_producer);
                        world.next_producer += 1;
                        EngineReply::Produced(Ok(producer))
                    }
                    EngineRequest::Consume { .. } => panic!("a consumer was asked for"),
                    EngineRequest::ResumeConsumer { .. } => continue,
                };
                let room = world.room.as_mut().unwrap();
                let effects = Session::engine_replied(id, room, reply);
                queue.extend(effects.into_iter().map(|e| (at, e)));
            }
            Effect::Stop => {
                if !world.seats[at].stopped {
                    world.seats[at].stopped = true;
                    let effects = world.seats[at].session.stopping();
                    queue.extend(effects.into_iter().map(|e| (at, e)));
                    let room = world.room.as_mut().unwrap();
                    let effects = world.seats[at].session.close(room);
                    queue.extend(effects.into_iter().map(|e| (at, e)));
                    world.registry.release(ROOM);
                }
            }
            Effect::Heartbeat { .. }
            | Effect::Text(_)
            | Effect::Binary(_)
            | Effect::Ping(_)
            | Effect::Pong(_)
            | Effect::Close(_) => {}
        }
    }
}

fn connect(world: &mut World, name: &str) -> usize {
    if !world.registry.get_or_create_room(ROOM) {
        world.routers_created += 1;
        world.room = Some(Room::new(ROOM, Ok(())).unwrap());
        world.registry.room_created(ROOM, Ok(())).unwrap();
    }
    let session =
        Session::new(ROOM, name.to_string(), 0, Ok(options(1)), Ok(options(2))).unwrap();
    world.seats.push(Seat { session, inbox: Vec::new(), stopped: false });
    let at = world.seats.len() - 1;
    let effects = world.seats[at].session.started("capabilities".to_string());
    settle(world, at, effects);
    at
}

fn request(world: &mut World, at: usize, request: ClientMessage) {
    let effects = world.seats[at].session.handle_frame(Ok(Frame::Text(Some(request))), 1);
    settle(world, at, effects);
}

fn disconnect(world: &mut World, at: usize) {
    let effects = world.seats[at].session.handle_frame(Ok(Frame::Close(None)), 1);
    settle(world, at, effects);
}

fn is_init(message: &ServerMessage) -> bool {
    matches!(message, ServerMessage::Init { room_id, .. } if *room_id == ROOM)
}

#[test]
fn first_member_gets_init_and_second_is_announced() {
    let mut world = world();
    let x = connect(&mut world, "Xena");
    let x_id = world.seats[x].session.id();
    assert_eq!(world.seats[x].inbox.len(), 1);
    assert!(is_init(&world.seats[x].inbox[0]));

    let y = connect(&mut world, "Yuri");
    let y_id = world.seats[y].session.id();
    assert_eq!(
        world.seats[x].inbox[1..].to_vec(),
        vec![ServerMessage::NewComer {
            session_id: y_id,
            name: "Yuri".to_string(),
            just_joined: true
        }]
    );
    assert_eq!(world.seats[y].inbox.len(), 2);
    assert!(world.seats[y].inbox.iter().any(is_init));
    assert!(world.seats[y].inbox.contains(&ServerMessage::NewComer {
        session_id: x_id,
        name: "Xena".to_string(),
        just_joined: false
    }));
    assert_eq!(world.routers_created, 1);
    assert_eq!(world.registry.holders(ROOM), 2);
}

#[test]
fn hub_sends_first_member_an_empty_list_and_second_the_first() {
    let mut server = Server::new();
    let mut world = world();
    let mut run = |server: &mut Server, id: u128, name: &str| {
        let mut step = server.add_session(ROOM, SessionId(id), name.to_string());
        loop {
            match step {
                Step::Ask { request, then } => {
                    let reply = perform(&mut world, request);
                    step = server.resume(then, reply);
                }
                Step::Done(deliveries) => return deliveries,
            }
        }
    };
    let first = run(&mut server, 1, "Xena");
    assert_eq!(
        first.last().unwrap().message,
        InternalMessage::LocalScope(LocalScopeMessage::PresentMembers(vec![]))
    );
    let second = run(&mut server, 2, "Yuri");
    assert_eq!(second.last().unwrap().to, SessionId(2));
    assert_eq!(
        second.last().unwrap().message,
        InternalMessage::LocalScope(LocalScopeMessage::PresentMembers(vec![(
            SessionId(1).to_string(),
            "Xena".to_string()
        )]))
    );
}

#[test]
fn produced_stream_is_acknowledged_and_announced_to_the_other() {
    let mut world = world();
    let x = connect(&mut world, "Xena");
    let y = connect(&mut world, "Yuri");
    let x_id = world.seats[x].session.id();
    let x_seen = world.seats[x].inbox.len();
    let y_seen = world.seats[y].inbox.len();
    request(
        &mut world,
        x,
        ClientMessage::Produce { kind: MediaKind::Audio, rtp_parameters: "rtp".to_string() },
    );
    assert_eq!(
        world.seats[x].inbox[x_seen..].to_vec(),
        vec![ServerMessage::Produced { id: ProducerId(1) }]
    );
    assert_eq!(
        world.seats[y].inbox[y_seen..].to_vec(),
        vec![ServerMessage::ProducerAdded { session_id: x_id, producer_id: ProducerId(1) }]
    );
    assert_eq!(world.seats[x].session.producers(), &vec![ProducerId(1)]);
    assert_eq!(world.room.as_ref().unwrap().all_producers(), vec![(x_id, ProducerId(1))]);
}

#[test]
fn late_joiner_learns_of_streams_on_init() {
    let mut world = world();
    let x = connect(&mut world, "Xena");
    let x_id = world.seats[x].session.id();
    request(
        &mut world,
        x,
        ClientMessage::Produce { kind: MediaKind::Video, rtp_parameters: "rtp".to_string() },
    );
    let y = connect(&mut world, "Yuri");
    let y_seen = world.seats[y].inbox.len();
    request(&mut world, y, ClientMessage::Init { rtp_capabilities: "caps".to_string() });
    assert_eq!(
        world.seats[y].inbox[y_seen..].to_vec(),
        vec![ServerMessage::ProducerAdded { session_id: x_id, producer_id: ProducerId(1) }]
    );
    let x_seen = world.seats[x].inbox.len();
    request(&mut world, x, ClientMessage::Init { rtp_capabilities: "caps".to_string() });
    assert_eq!(world.seats[x].inbox.len(), x_seen);
}

#[test]
fn consume_without_init_tears_the_session_down() {
    let mut world = world();
    let x = connect(&mut world, "Xena");
    let y = connect(&mut world, "Yuri");
    let x_id = world.seats[x].session.id();
    let y_id = world.seats[y].session.id();
    request(
        &mut world,
        x,
        ClientMessage::Produce { kind: MediaKind::Audio, rtp_parameters: "rtp".to_string() },
    );
    request(
        &mut world,
        y,
        ClientMessage::Consume { producer_id: ProducerId(1), session_id: x_id },
    );
    assert!(world.seats[y].stopped);
    assert_eq!(world.seats[y].session.phase(), Phase::Closed);
    assert!(!world.seats[y]
        .inbox
        .iter()
        .any(|message| matches!(message, ServerMessage::Consumed { .. })));
    assert!(!world.members.contains(&y_id.to_string()));
    assert!(!world.server.reaches(y_id));
}

#[test]
fn abrupt_disconnect_withdraws_every_stream() {
    let mut world = world();
    let x = connect(&mut world, "Xena");
    let y = connect(&mut world, "Yuri");
    let x_id = world.seats[x].session.id();
    for kind in [MediaKind::Audio, MediaKind::Video] {
        request(
            &mut world,
            x,
            ClientMessage::Produce { kind, rtp_parameters: "rtp".to_string() },
        );
    }
    assert_eq!(
        world.room.as_ref().unwrap().all_producers(),
        vec![(x_id, ProducerId(1)), (x_id, ProducerId(2))]
    );
    let y_seen = world.seats[y].inbox.len();
    disconnect(&mut world, x);
    let mut removed: Vec<ServerMessage> = world.seats[y].inbox[y_seen..].to_vec();
    removed.sort_by_key(|message| match message {
        ServerMessage::ProducerRemoved { producer_id, .. } => producer_id.0,
        _ => 0,
    });
    assert_eq!(
        removed,
        vec![
            ServerMessage::ProducerRemoved { session_id: x_id, producer_id: ProducerId(1) },
            ServerMessage::ProducerRemoved { session_id: x_id, producer_id: ProducerId(2) },
        ]
    );
    assert!(world.room.as_ref().unwrap().all_producers().is_empty());
    assert!(!world.members.contains(&x_id.to_string()));
    assert!(!world.names.contains_key(&name_key(ROOM, x_id)));
    assert_eq!(world.registry.holders(ROOM), 1);
}

#[test]
fn room_leaves_the_registry_with_its_last_member() {
    let mut world = world();
    let x = connect(&mut world, "Xena");
    let y = connect(&mut world, "Yuri");
    disconnect(&mut world, x);
    assert_eq!(world.registry.room(ROOM), Some(&()));
    disconnect(&mut world, y);
    assert_eq!(world.registry.room(ROOM), None);
    connect(&mut world, "Zoe");
    assert_eq!(world.routers_created, 2);
}

#[test]
fn chat_text_reaches_the_others_under_the_senders_name() {
    let mut world = world();
    let x = connect(&mut world, "Xena");
    let y = connect(&mut world, "Yuri");
    let z = connect(&mut world, "Zoe");
    let x_id = world.seats[x].session.id();
    let seen: Vec<usize> = [x, y, z].iter().map(|at| world.seats[*at].inbox.len()).collect();
    request(&mut world, x, ClientMessage::Text { text: "hello".to_string() });
    let text = ServerMessage::Text { sender_id: x_id, text: "hello".to_string() };
    assert_eq!(world.seats[x].inbox.len(), seen[0]);
    assert_eq!(world.seats[y].inbox[seen[1]..].to_vec(), vec![text.clone()]);
    assert_eq!(world.seats[z].inbox[seen[2]..].to_vec(), vec![text]);
}
