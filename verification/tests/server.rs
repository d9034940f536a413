use rooms::media::ProducerId;
use rooms::webrtc::room::RoomId;
use rooms::websocket::messages::internals::{
    Forwarded, GlobalMessage, GlobalScopeMessage, InternalMessage, LocalScopeMessage,
};
use rooms::websocket::server::{Delivery, JoinStage, LeaveStage, Pending, Step};
use rooms::websocket::store::{members_key, name_key, name_keys, StoreReply, StoreRequest};
use rooms::websocket::{Server, SessionId};
use std::collections::{BTreeMap, BTreeSet};

const ROOM: RoomId = RoomId(0xaa);
const ROOM_TEXT: &str = "00000000-0000-0000-0000-0000000000aa";

fn text(id: u128) -> String {
    SessionId(id).to_string()
}

/// A presence store that lives in memory and fails when told to.
struct Store {
    sets: BTreeMap<String, BTreeSet<String>>,
    texts: BTreeMap<String, String>,
    log: Vec<StoreRequest>,
    fail: Vec<usize>,
}

fn store() -> Store {
    Store { sets: BTreeMap::new(), texts: BTreeMap::new(), log: Vec::new(), fail: Vec::new() }
}

fn perform(store: &mut Store, request: StoreRequest) -> StoreReply {
    let position = store.log.len();
    store.log.push(request.clone());
    if store.fail.contains(&position) {
        return StoreReply::Failed;
    }
    match request {
        StoreRequest::Open => StoreReply::Done,
        StoreRequest::Members { key } => StoreReply::Members(
            store.sets.get(&key).map(|set| set.iter().cloned().collect()).unwrap_or_default(),
        ),
        StoreRequest::Names { keys } => {
            StoreReply::Names(keys.iter().map(|key| store.texts.get(key).cloned()).collect())
        }
        StoreRequest::AddMember { key, member } => {
            store.sets.entry(key).or_default().insert(member);
            StoreReply::Done
        }
        StoreRequest::SetName { key, name } => {
            store.texts.insert(key, name);
            StoreReply::Done
        }
        StoreRequest::RemoveMember { key, member } => {
            if let Some(set) = store.sets.get_mut(&key) {
                set.remove(&member);
            }
            StoreReply::Done
        }
        StoreRequest::DeleteName { key } => {
            store.texts.remove(&key);
            StoreReply::Done
        }
    }
}

fn run(server: &mut Server, store: &mut Store, first: Step) -> Vec<Delivery> {
    let mut step = first;
    loop {
        match step {
            Step::Ask { request, then } => {
                let reply = perform(store, request);
                step = server.resume(then, reply);
            }
            Step::Done(deliveries) => return deliveries,
        }
    }
}

fn join(server: &mut Server, store: &mut Store, id: u128, name: &str) -> Vec<Delivery> {
    let first = server.add_session(ROOM, SessionId(id), name.to_string());
    run(server, store, first)
}

fn leave(server: &mut Server, store: &mut Store, id: u128) -> Vec<Delivery> {
    let first = server.remove_session(ROOM, SessionId(id));
    run(server, store, first)
}

fn joined(id: u128, name: &str) -> InternalMessage {
    InternalMessage::GlobalScope(GlobalScopeMessage {
        session_id: SessionId(id),
        room_id: ROOM,
        message: GlobalMessage::AddSession(name.to_string()),
    })
}

fn left(id: u128) -> InternalMessage {
    InternalMessage::GlobalScope(GlobalScopeMessage {
        session_id: SessionId(id),
        room_id: ROOM,
        message: GlobalMessage::RemoveSession,
    })
}

fn present(members: &[(u128, &str)]) -> InternalMessage {
    InternalMessage::LocalScope(LocalScopeMessage::PresentMembers(
        members.iter().map(|(id, name)| (text(*id), name.to_string())).collect(),
    ))
}

fn to(id: u128, message: InternalMessage) -> Delivery {
    Delivery { to: SessionId(id), message }
}

#[test]
fn keys_name_the_room_and_the_member() {
    assert_eq!(members_key(ROOM), format!("room:{ROOM_TEXT}:members"));
    assert_eq!(
        name_key(ROOM, SessionId(0x1f)),
        format!("room:{ROOM_TEXT}:members:00000000-0000-0000-0000-00000000001f:name")
    );
    assert_eq!(
        name_keys(ROOM, &vec![SessionId(1), SessionId(2)]),
        vec![name_key(ROOM, SessionId(1)), name_key(ROOM, SessionId(2))]
    );
    assert_eq!(name_keys(ROOM, &vec![]), Vec::<String>::new());
}

#[test]
fn new_hub_reaches_nobody() {
    let server = Server::new();
    assert!(!server.reaches(SessionId(1)));
}

#[test]
fn members_are_read_from_a_listing_and_unreadable_ones_passed_over() {
    let reply = StoreReply::Members(vec![
        text(3),
        "nobody".to_string(),
        "00000000000000000000000000000001".to_string(),
        text(3),
    ]);
    assert_eq!(
        Server::room_members(&reply),
        vec![SessionId(3), SessionId(1), SessionId(3)]
    );
}

#[test]
fn failed_listing_stands_for_no_members() {
    assert_eq!(Server::room_members(&StoreReply::Failed), vec![]);
    assert_eq!(Server::room_members(&StoreReply::Done), vec![]);
    assert_eq!(Server::room_members(&StoreReply::Names(vec![Some(text(1))])), vec![]);
    assert_eq!(Server::room_members(&StoreReply::Members(vec![])), vec![]);
}

#[test]
fn members_with_a_name_are_present() {
    let members = vec![SessionId(1), SessionId(2), SessionId(3)];
    let reply = StoreReply::Names(vec![Some("Ada".to_string()), None, Some("Cy".to_string())]);
    assert_eq!(
        Server::room_members_name(&members, &reply),
        vec![(text(1), "Ada".to_string()), (text(3), "Cy".to_string())]
    );
}

#[test]
fn names_that_do_not_match_the_members_count_for_nothing() {
    let members = vec![SessionId(1), SessionId(2)];
    assert_eq!(
        Server::room_members_name(&members, &StoreReply::Names(vec![Some("Ada".to_string())])),
        vec![]
    );
    assert_eq!(Server::room_members_name(&members, &StoreReply::Failed), vec![]);
    assert_eq!(
        Server::room_members_name(&members, &StoreReply::Members(vec![text(1), text(2)])),
        vec![]
    );
}

#[test]
fn joining_begins_with_opening_the_store() {
    let server = Server::new();
    assert_eq!(
        server.add_session(ROOM, SessionId(1), "Ada".to_string()),
        Step::Ask {
            request: StoreRequest::Open,
            then: Pending::Join {
                stage: JoinStage::Open,
                room_id: ROOM,
                session_id: SessionId(1),
                name: "Ada".to_string(),
                members: vec![],
                present: vec![],
            },
        }
    );
}

#[test]
fn first_member_is_told_of_itself_and_of_nobody_present() {
    let mut server = Server::new();
    let mut store = store();
    let deliveries = join(&mut server, &mut store, 1, "Ada");
    assert_eq!(deliveries, vec![to(1, joined(1, "Ada")), to(1, present(&[]))]);
    assert!(server.reaches(SessionId(1)));
    assert_eq!(
        store.log,
        vec![
            StoreRequest::Open,
            StoreRequest::Members { key: members_key(ROOM) },
            StoreRequest::Names { keys: vec![] },
            StoreRequest::AddMember { key: members_key(ROOM), member: text(1) },
            StoreRequest::SetName { key: name_key(ROOM, SessionId(1)), name: "Ada".to_string() },
            StoreRequest::Members { key: members_key(ROOM) },
        ]
    );
    assert!(store.sets[&members_key(ROOM)].contains(&text(1)));
    assert_eq!(store.texts[&name_key(ROOM, SessionId(1))], "Ada");
}

#[test]
fn second_member_is_announced_and_told_who_was_there() {
    let mut server = Server::new();
    let mut store = store();
    join(&mut server, &mut store, 1, "Ada");
    let deliveries = join(&mut server, &mut store, 2, "Bob");
    assert_eq!(
        deliveries,
        vec![
            to(1, joined(2, "Bob")),
            to(2, joined(2, "Bob")),
            to(2, present(&[(1, "Ada")])),
        ]
    );
}

#[test]
fn present_members_are_the_members_before_the_join() {
    let mut server = Server::new();
    let mut store = store();
    let mut expected: Vec<(u128, &str)> = Vec::new();
    let names = ["Ada", "Bob", "Cy", "Di", "Ed"];
    for (i, name) in names.iter().enumerate() {
        let id = (i + 1) as u128;
        let before: Vec<String> =
            store.sets.get(&members_key(ROOM)).map(|s| s.iter().cloned().collect()).unwrap_or_default();
        let deliveries = join(&mut server, &mut store, id, name);
        let last = deliveries.last().unwrap();
        assert_eq!(last, &to(id, present(&expected)));
        match &last.message {
            InternalMessage::LocalScope(LocalScopeMessage::PresentMembers(members)) => {
                let listed: Vec<String> = members.iter().map(|m| m.0.clone()).collect();
                assert_eq!(listed, before);
            }
            _ => panic!("no present members"),
        }
        expected.push((id, name));
    }
    leave(&mut server, &mut store, 2);
    let deliveries = join(&mut server, &mut store, 9, "Zed");
    assert_eq!(
        deliveries.last().unwrap(),
        &to(9, present(&[(1, "Ada"), (3, "Cy"), (4, "Di"), (5, "Ed")]))
    );
}

#[test]
fn present_members_do_not_depend_on_the_directory() {
    let mut server = Server::new();
    let mut store = store();
    store.sets.entry(members_key(ROOM)).or_default().insert(text(7));
    store.texts.insert(name_key(ROOM, SessionId(7)), "Far".to_string());
    let deliveries = join(&mut server, &mut store, 1, "Ada");
    assert!(!server.reaches(SessionId(7)));
    assert_eq!(deliveries, vec![to(1, joined(1, "Ada")), to(1, present(&[(7, "Far")]))]);
}

#[test]
fn member_without_a_name_is_not_present() {
    let mut server = Server::new();
    let mut store = store();
    store.sets.entry(members_key(ROOM)).or_default().insert(text(7));
    let deliveries = join(&mut server, &mut store, 1, "Ada");
    assert_eq!(deliveries.last().unwrap(), &to(1, present(&[])));
}

#[test]
fn join_is_a_no_op_when_the_store_cannot_be_opened() {
    let mut server = Server::new();
    let mut store = store();
    store.fail = vec![0];
    let deliveries = join(&mut server, &mut store, 1, "Ada");
    assert_eq!(deliveries, vec![]);
    assert!(!server.reaches(SessionId(1)));
    assert_eq!(store.log, vec![StoreRequest::Open]);
}

#[test]
fn join_ends_when_the_member_cannot_be_added() {
    let mut server = Server::new();
    let mut store = store();
    store.fail = vec![3];
    let deliveries = join(&mut server, &mut store, 1, "Ada");
    assert_eq!(deliveries, vec![]);
    assert!(server.reaches(SessionId(1)));
    assert_eq!(store.log.len(), 4);
}

#[test]
fn join_ends_when_the_name_cannot_be_kept() {
    let mut server = Server::new();
    let mut store = store();
    store.fail = vec![4];
    let deliveries = join(&mut server, &mut store, 1, "Ada");
    assert_eq!(deliveries, vec![]);
    assert_eq!(store.log.len(), 5);
}

#[test]
fn join_goes_on_when_the_listings_fail() {
    let mut server = Server::new();
    let mut store = store();
    join(&mut server, &mut store, 1, "Ada");
    let base = store.log.len();
    store.fail = vec![base + 1, base + 2, base + 5];
    let deliveries = join(&mut server, &mut store, 2, "Bob");
    assert_eq!(deliveries, vec![to(2, present(&[]))]);
    assert!(store.sets[&members_key(ROOM)].contains(&text(2)));
}

#[test]
fn leaving_member_is_taken_out_and_the_rest_is_told() {
    let mut server = Server::new();
    let mut store = store();
    join(&mut server, &mut store, 1, "Ada");
    join(&mut server, &mut store, 2, "Bob");
    join(&mut server, &mut store, 3, "Cy");
    let base = store.log.len();
    let deliveries = leave(&mut server, &mut store, 2);
    assert_eq!(deliveries, vec![to(1, left(2)), to(3, left(2))]);
    assert!(!server.reaches(SessionId(2)));
    assert!(!store.sets[&members_key(ROOM)].contains(&text(2)));
    assert!(!store.texts.contains_key(&name_key(ROOM, SessionId(2))));
    assert_eq!(
        store.log[base..].to_vec(),
        vec![
            StoreRequest::Open,
            StoreRequest::RemoveMember { key: members_key(ROOM), member: text(2) },
            StoreRequest::DeleteName { key: name_key(ROOM, SessionId(2)) },
            StoreRequest::Members { key: members_key(ROOM) },
        ]
    );
}

#[test]
fn leave_is_a_no_op_when_the_store_cannot_be_opened() {
    let mut server = Server::new();
    let mut store = store();
    join(&mut server, &mut store, 1, "Ada");
    join(&mut server, &mut store, 2, "Bob");
    store.fail = vec![store.log.len()];
    assert_eq!(leave(&mut server, &mut store, 2), vec![]);
    assert!(server.reaches(SessionId(2)));
    assert!(store.sets[&members_key(ROOM)].contains(&text(2)));
}

#[test]
fn leave_ends_when_the_member_cannot_be_taken_out() {
    let mut server = Server::new();
    let mut store = store();
    join(&mut server, &mut store, 1, "Ada");
    join(&mut server, &mut store, 2, "Bob");
    store.fail = vec![store.log.len() + 1];
    assert_eq!(leave(&mut server, &mut store, 2), vec![]);
    assert!(!server.reaches(SessionId(2)));
}

#[test]
fn leave_goes_on_when_the_name_cannot_be_deleted() {
    let mut server = Server::new();
    let mut store = store();
    join(&mut server, &mut store, 1, "Ada");
    join(&mut server, &mut store, 2, "Bob");
    store.fail = vec![store.log.len() + 2];
    assert_eq!(leave(&mut server, &mut store, 2), vec![to(1, left(2))]);
}

#[test]
fn leaving_begins_with_opening_the_store() {
    let server = Server::new();
    assert_eq!(
        server.remove_session(ROOM, SessionId(1)),
        Step::Ask {
            request: StoreRequest::Open,
            then: Pending::Leave { stage: LeaveStage::Open, room_id: ROOM, session_id: SessionId(1) },
        }
    );
}

#[test]
fn forwarded_message_reaches_everybody_but_its_origin() {
    let mut server = Server::new();
    let mut store = store();
    for (id, name) in [(1, "Ada"), (2, "Bob"), (3, "Cy")] {
        join(&mut server, &mut store, id, name);
    }
    for origin in 1..=3u128 {
        let message = GlobalScopeMessage {
            session_id: SessionId(origin),
            room_id: ROOM,
            message: GlobalMessage::ForwardMessage(Forwarded::Text("hi".to_string())),
        };
        let first = server.forward(message.clone());
        let deliveries = run(&mut server, &mut store, first);
        let expected: Vec<Delivery> = (1..=3u128)
            .filter(|id| *id != origin)
            .map(|id| to(id, InternalMessage::GlobalScope(message.clone())))
            .collect();
        assert_eq!(deliveries, expected);
        assert!(deliveries.iter().all(|d| d.to != SessionId(origin)));
    }
}

#[test]
fn forwarded_message_of_a_lone_member_reaches_nobody() {
    let mut server = Server::new();
    let mut store = store();
    join(&mut server, &mut store, 1, "Ada");
    let first = server.forward(GlobalScopeMessage {
        session_id: SessionId(1),
        room_id: ROOM,
        message: GlobalMessage::ForwardMessage(Forwarded::Binary(vec![1, 2, 3])),
    });
    assert_eq!(run(&mut server, &mut store, first), vec![]);
}

#[test]
fn forwarding_skips_members_that_are_not_in_the_directory() {
    let mut server = Server::new();
    let mut store = store();
    join(&mut server, &mut store, 1, "Ada");
    join(&mut server, &mut store, 2, "Bob");
    store.sets.entry(members_key(ROOM)).or_default().insert(text(7));
    let message = GlobalScopeMessage {
        session_id: SessionId(1),
        room_id: ROOM,
        message: GlobalMessage::AddProducer(ProducerId(4)),
    };
    let first = server.forward(message.clone());
    assert_eq!(
        run(&mut server, &mut store, first),
        vec![to(2, InternalMessage::GlobalScope(message))]
    );
}

#[test]
fn forwarding_delivers_nothing_when_the_listing_fails() {
    let mut server = Server::new();
    let mut store = store();
    join(&mut server, &mut store, 1, "Ada");
    join(&mut server, &mut store, 2, "Bob");
    store.fail = vec![store.log.len()];
    let first = server.forward(GlobalScopeMessage {
        session_id: SessionId(1),
        room_id: ROOM,
        message: GlobalMessage::RemoveProducer(ProducerId(4)),
    });
    assert_eq!(run(&mut server, &mut store, first), vec![]);
}

#[test]
fn forwarding_keeps_to_the_room_of_the_message() {
    let mut server = Server::new();
    let mut store = store();
    join(&mut server, &mut store, 1, "Ada");
    join(&mut server, &mut store, 2, "Bob");
    let first = server.forward(GlobalScopeMessage {
        session_id: SessionId(1),
        room_id: RoomId(0xbb),
        message: GlobalMessage::AddProducer(ProducerId(4)),
    });
    assert_eq!(run(&mut server, &mut store, first), vec![]);
    assert_eq!(
        store.log.last(),
        Some(&StoreRequest::Members { key: members_key(RoomId(0xbb)) })
    );
}

#[test]
fn hub_takes_each_message_by_its_kind() {
    let server = Server::new();
    assert_eq!(
        server.handle(joined(1, "Ada")),
        server.add_session(ROOM, SessionId(1), "Ada".to_string())
    );
    assert_eq!(server.handle(left(1)), server.remove_session(ROOM, SessionId(1)));
    let events = vec![
        GlobalMessage::AddProducer(ProducerId(1)),
        GlobalMessage::RemoveProducer(ProducerId(1)),
        GlobalMessage::ForwardMessage(Forwarded::Text("t".to_string())),
        GlobalMessage::ForwardMessage(Forwarded::Binary(vec![0])),
    ];
    for message in events {
        let scoped = GlobalScopeMessage { session_id: SessionId(1), room_id: ROOM, message };
        assert_eq!(
            server.handle(InternalMessage::GlobalScope(scoped.clone())),
            server.forward(scoped)
        );
    }
}

#[test]
fn hub_leaves_messages_of_local_scope_alone() {
    let server = Server::new();
    let messages = vec![
        LocalScopeMessage::Stop,
        LocalScopeMessage::SaveProducer(ProducerId(1)),
        LocalScopeMessage::PresentMembers(vec![(text(1), "Ada".to_string())]),
    ];
    for message in messages {
        assert_eq!(server.handle(InternalMessage::LocalScope(message)), Step::Done(vec![]));
    }
}

#[test]
fn reply_of_the_wrong_kind_counts_as_a_failure() {
    let mut server = Server::new();
    let pending = Pending::Join {
        stage: JoinStage::Open,
        room_id: ROOM,
        session_id: SessionId(1),
        name: "Ada".to_string(),
        members: vec![],
        present: vec![],
    };
    assert_eq!(server.resume(pending, StoreReply::Members(vec![])), Step::Done(vec![]));
    assert!(!server.reaches(SessionId(1)));
}
