//! The hub: the directory of the sessions that can be reached from this
//! process, and the fan-out of room events to them.
//!
//! Who is in a room is recorded in the presence store, not here. An
//! operation of the hub therefore runs in steps. Each step either asks for
//! one operation on the store and says how to go on once the reply is
//! there, or ends the operation with the messages to deliver. The embedding
//! program performs the store operations and the deliveries; a member that
//! the hub does not hold in its directory is never delivered to.

use crate::identifier::{hyphenated, parsed_uuid};
use crate::view::{
    lemma_pair_views_push, lemma_views_empty, lemma_views_push, option_views, pair_views, views,
};
use crate::webrtc::room::RoomId;
use crate::websocket::messages::internals::{
    GlobalMessage, GlobalMessageView, GlobalScopeMessage, GlobalScopeMessageView,
    InternalMessage, InternalMessageView, LocalScopeMessage, LocalScopeMessageView,
};
use crate::websocket::session::SessionId;
use crate::websocket::store::{
    members_key, members_key_text, name_key, name_key_text, name_key_texts, name_keys,
    StoreReply, StoreReplyView, StoreRequest, StoreRequestView,
};
use std::collections::HashSet;
use vstd::prelude::*;

verus! {

/// A message to hand to the session `to`.
#[derive(Debug, Clone, PartialEq, Eq)]
pub struct Delivery {
    pub to: SessionId,
    pub message: InternalMessage,
}

/// What a `Delivery` stands for: the same value, with texts and lists as
/// sequences.
pub struct DeliveryView {
    pub to: SessionId,
    pub message: InternalMessageView,
}

impl View for Delivery {
    type V = DeliveryView;

    open spec fn view(&self) -> DeliveryView {
        DeliveryView { to: self.to, message: self.message@ }
    }
}

/// How far the admission of a session to a room has come.
#[derive(Debug, Clone, Copy, PartialEq, Eq, Structural)]
pub enum JoinStage {
    /// Waiting for the connection to the store.
    Open,
    /// Waiting for the members that the room had before.
    Members,
    /// Waiting for the display names of those members.
    Names,
    /// Waiting for the session to be added to the members.
    Add,
    /// Waiting for the session's display name to be stored.
    SetName,
    /// Waiting for the members that the room has now.
    Announce,
}

/// How far the departure of a session from a room has come.
#[derive(Debug, Clone, Copy, PartialEq, Eq, Structural)]
pub enum LeaveStage {
    /// Waiting for the connection to the store.
    Open,
    /// Waiting for the session to be taken out of the members.
    Remove,
    /// Waiting for the session's display name to be deleted.
    Delete,
    /// Waiting for the members that the room has now.
    Announce,
}

/// An operation of the hub that waits for a reply of the presence store.
#[derive(Debug, Clone, PartialEq, Eq)]
pub enum Pending {
    /// Session `session_id`, called `name`, joins room `room_id`. `members`
    /// are the members the room had before, once they are known; `present`
    /// are those of them whose names are known, once they are.
    Join {
        stage: JoinStage,
        room_id: RoomId,
        session_id: SessionId,
        name: String,
        members: Vec<SessionId>,
        present: Vec<(String, String)>,
    },
    /// Session `session_id` leaves room `room_id`.
    Leave { stage: LeaveStage, room_id: RoomId, session_id: SessionId },
    /// `message` goes to the rest of its room, once the members are known.
    Forward { message: GlobalScopeMessage },
}

/// What a `Pending` stands for: the same value, with texts and lists as
/// sequences.
pub enum PendingView {
    Join {
        stage: JoinStage,
        room_id: RoomId,
        session_id: SessionId,
        name: Seq<char>,
        members: Seq<SessionId>,
        present: Seq<(Seq<char>, Seq<char>)>,
    },
    Leave { stage: LeaveStage, room_id: RoomId, session_id: SessionId },
    Forward { message: GlobalScopeMessageView },
}

impl View for Pending {
    type V = PendingView;

    open spec fn view(&self) -> PendingView {
        match *self {
            Pending::Join { stage, room_id, session_id, name, members, present } =>
                PendingView::Join {
                    stage,
                    room_id,
                    session_id,
                    name: name@,
                    members: members@,
                    present: pair_views(present@),
                },
            Pending::Leave { stage, room_id, session_id } => PendingView::Leave {
                stage,
                room_id,
                session_id,
            },
            Pending::Forward { message } => PendingView::Forward { message: message@ },
        }
    }
}

/// One step of an operation of the hub.
#[derive(Debug, Clone, PartialEq, Eq)]
pub enum Step {
    /// Perform `request` on the presence store and hand the reply, together
    /// with `then`, to `Server::resume`.
    Ask { request: StoreRequest, then: Pending },
    /// The operation is over. Deliver these messages, in order.
    Done(Vec<Delivery>),
}

/// What a `Step` stands for: the same value, with texts and lists as
/// sequences.
pub enum StepView {
    Ask { request: StoreRequestView, then: PendingView },
    Done(Seq<DeliveryView>),
}

impl View for Step {
    type V = StepView;

    open spec fn view(&self) -> StepView {
        match *self {
            Step::Ask { request, then } => StepView::Ask { request: request@, then: then@ },
            Step::Done(deliveries) => StepView::Done(views(deliveries@)),
        }
    }
}

/// The sessions that a listing of the store names: each text that reads as
/// an identifier, in the listing's order. Texts that do not are passed
/// over.
pub open spec fn listed_members(listing: Seq<Seq<char>>) -> Seq<SessionId>
    decreases listing.len(),
{
    if listing.len() == 0 {
        Seq::empty()
    } else {
        match parsed_uuid(listing.last()) {
            Some(v) => listed_members(listing.drop_last()).push(SessionId(v)),
            None => listed_members(listing.drop_last()),
        }
    }
}

/// The members of a room according to a reply of the store. A reply that
/// is no listing stands for a room without members.
pub open spec fn reply_members(reply: StoreReplyView) -> Seq<SessionId> {
    match reply {
        StoreReplyView::Members(listing) => listed_members(listing),
        _ => Seq::empty(),
    }
}

/// The names that a reply of the store holds; none if it is no reply to a
/// request for names.
pub open spec fn reply_names(reply: StoreReplyView) -> Seq<Option<Seq<char>>> {
    match reply {
        StoreReplyView::Names(names) => names,
        _ => Seq::empty(),
    }
}

/// The members whose name is known, each as the canonical text of its
/// identifier and its name, in order. `names` holds one entry for each of
/// `members`; where it does not, no member's name counts as known.
pub open spec fn present_members(members: Seq<SessionId>, names: Seq<Option<Seq<char>>>) -> Seq<
    (Seq<char>, Seq<char>),
>
    decreases members.len(),
{
    if members.len() == 0 || names.len() != members.len() {
        Seq::empty()
    } else {
        match names.last() {
            Some(name) => present_members(members.drop_last(), names.drop_last()).push(
                (hyphenated(members.last().0), name),
            ),
            None => present_members(members.drop_last(), names.drop_last()),
        }
    }
}

/// The deliveries of `message` to the members of a room: one to each member
/// that is in the directory `local`, but none to `except`, in the order of
/// `members`.
pub open spec fn fanout(
    members: Seq<SessionId>,
    local: Set<SessionId>,
    except: Option<SessionId>,
    message: InternalMessageView,
) -> Seq<DeliveryView>
    decreases members.len(),
{
    if members.len() == 0 {
        Seq::empty()
    } else if local.contains(members.last()) && except != Some(members.last()) {
        fanout(members.drop_last(), local, except, message).push(
            DeliveryView { to: members.last(), message },
        )
    } else {
        fanout(members.drop_last(), local, except, message)
    }
}

/// The step that ends an operation without any delivery.
pub open spec fn nothing_to_deliver() -> StepView {
    StepView::Done(Seq::empty())
}

/// The step of an admission that follows on a reply of the store.
///
/// The session enters the directory once the store is open. The members
/// that the store lists before the session is added, with their names, are
/// what the session is sent as the members present; it is sent after every
/// member in the directory has been told of the newcomer. If the store
/// cannot be opened, or refuses to add the session or to keep its name, the
/// admission ends there and nothing is delivered.
pub open spec fn join_step(
    local: Set<SessionId>,
    stage: JoinStage,
    room_id: RoomId,
    session_id: SessionId,
    name: Seq<char>,
    members: Seq<SessionId>,
    present: Seq<(Seq<char>, Seq<char>)>,
    reply: StoreReplyView,
) -> (Set<SessionId>, StepView) {
    match stage {
        JoinStage::Open => if reply is Done {
            (
                local.insert(session_id),
                StepView::Ask {
                    request: StoreRequestView::Members { key: members_key_text(room_id) },
                    then: PendingView::Join {
                        stage: JoinStage::Members,
                        room_id,
                        session_id,
                        name,
                        members,
                        present,
                    },
                },
            )
        } else {
            (local, nothing_to_deliver())
        },
        JoinStage::Members => (
            local,
            StepView::Ask {
                request: StoreRequestView::Names {
                    keys: name_key_texts(room_id, reply_members(reply)),
                },
                then: PendingView::Join {
                    stage: JoinStage::Names,
                    room_id,
                    session_id,
                    name,
                    members: reply_members(reply),
                    present,
                },
            },
        ),
        JoinStage::Names => (
            local,
            StepView::Ask {
                request: StoreRequestView::AddMember {
                    key: members_key_text(room_id),
                    member: hyphenated(session_id.0),
                },
                then: PendingView::Join {
                    stage: JoinStage::Add,
                    room_id,
                    session_id,
                    name,
                    members,
                    present: present_members(members, reply_names(reply)),
                },
            },
        ),
        JoinStage::Add => if reply is Done {
            (
                local,
                StepView::Ask {
                    request: StoreRequestView::SetName {
                        key: name_key_text(room_id, session_id),
                        name,
                    },
                    then: PendingView::Join {
                        stage: JoinStage::SetName,
                        room_id,
                        session_id,
                        name,
                        members,
                        present,
                    },
                },
            )
        } else {
            (local, nothing_to_deliver())
        },
        JoinStage::SetName => if reply is Done {
            (
                local,
                StepView::Ask {
                    request: StoreRequestView::Members { key: members_key_text(room_id) },
                    then: PendingView::Join {
                        stage: JoinStage::Announce,
                        room_id,
                        session_id,
                        name,
                        members,
                        present,
                    },
                },
            )
        } else {
            (local, nothing_to_deliver())
        },
        JoinStage::Announce => (
            local,
            StepView::Done(
                fanout(
                    reply_members(reply),
                    local,
                    None,
                    InternalMessageView::GlobalScope(
                        GlobalScopeMessageView {
                            session_id,
                            room_id,
                            message: GlobalMessageView::AddSession(name),
                        },
                    ),
                ).push(
                    DeliveryView {
                        to: session_id,
                        message: InternalMessageView::LocalScope(
                            LocalScopeMessageView::PresentMembers(present),
                        ),
                    },
                ),
            ),
        ),
    }
}

/// The step of a departure that follows on a reply of the store.
///
/// The session leaves the directory once the store is open. The members
/// that the store lists after it has been taken out are told, as far as
/// they are in the directory. If the store cannot be opened, or refuses to
/// take the session out, the departure ends there and nothing is
/// delivered; whether the name could be deleted makes no difference.
pub open spec fn leave_step(
    local: Set<SessionId>,
    stage: LeaveStage,
    room_id: RoomId,
    session_id: SessionId,
    reply: StoreReplyView,
) -> (Set<SessionId>, StepView) {
    match stage {
        LeaveStage::Open => if reply is Done {
            (
                local.remove(session_id),
                StepView::Ask {
                    request: StoreRequestView::RemoveMember {
                        key: members_key_text(room_id),
                        member: hyphenated(session_id.0),
                    },
                    then: PendingView::Leave { stage: LeaveStage::Remove, room_id, session_id },
                },
            )
        } else {
            (local, nothing_to_deliver())
        },
        LeaveStage::Remove => if reply is Done {
            (
                local,
                StepView::Ask {
                    request: StoreRequestView::DeleteName {
                        key: name_key_text(room_id, session_id),
                    },
                    then: PendingView::Leave { stage: LeaveStage::Delete, room_id, session_id },
                },
            )
        } else {
            (local, nothing_to_deliver())
        },
        LeaveStage::Delete => (
            local,
            StepView::Ask {
                request: StoreRequestView::Members { key: members_key_text(room_id) },
                then: PendingView::Leave { stage: LeaveStage::Announce, room_id, session_id },
            },
        ),
        LeaveStage::Announce => (
            local,
            StepView::Done(
                fanout(
                    reply_members(reply),
                    local,
                    None,
                    InternalMessageView::GlobalScope(
                        GlobalScopeMessageView {
                            session_id,
                            room_id,
                            message: GlobalMessageView::RemoveSession,
                        },
                    ),
                ),
            ),
        ),
    }
}

/// The step that follows on a reply of the store, and the directory after
/// it. A message that is forwarded goes to every member that the store
/// lists and the directory holds, except the session it stems from.
pub open spec fn resume_step(local: Set<SessionId>, pending: PendingView, reply: StoreReplyView) -> (
    Set<SessionId>,
    StepView,
) {
    match pending {
        PendingView::Join { stage, room_id, session_id, name, members, present } => join_step(
            local,
            stage,
            room_id,
            session_id,
            name,
            members,
            present,
            reply,
        ),
        PendingView::Leave { stage, room_id, session_id } => leave_step(
            local,
            stage,
            room_id,
            session_id,
            reply,
        ),
        PendingView::Forward { message } => (
            local,
            StepView::Done(
                fanout(
                    reply_members(reply),
                    local,
                    Some(message.session_id),
                    InternalMessageView::GlobalScope(message),
                ),
            ),
        ),
    }
}

/// The first step of the admission of a session.
pub open spec fn join_start(room_id: RoomId, session_id: SessionId, name: Seq<char>) -> StepView {
    StepView::Ask {
        request: StoreRequestView::Open,
        then: PendingView::Join {
            stage: JoinStage::Open,
            room_id,
            session_id,
            name,
            members: Seq::empty(),
            present: Seq::empty(),
        },
    }
}

/// The first step of the departure of a session.
pub open spec fn leave_start(room_id: RoomId, session_id: SessionId) -> StepView {
    StepView::Ask {
        request: StoreRequestView::Open,
        then: PendingView::Leave { stage: LeaveStage::Open, room_id, session_id },
    }
}

/// The first step of forwarding a message to its room.
pub open spec fn forward_start(message: GlobalScopeMessageView) -> StepView {
    StepView::Ask {
        request: StoreRequestView::Members { key: members_key_text(message.room_id) },
        then: PendingView::Forward { message },
    }
}

/// The first step of what the hub does with a message. Joining and leaving
/// are the hub's own business; every other event of a room is forwarded to
/// the rest of the room; messages of local scope are none of the hub's.
pub open spec fn handle_start(message: InternalMessageView) -> StepView {
    match message {
        InternalMessageView::GlobalScope(message) => match message.message {
            GlobalMessageView::AddSession(name) => join_start(
                message.room_id,
                message.session_id,
                name,
            ),
            GlobalMessageView::RemoveSession => leave_start(message.room_id, message.session_id),
            _ => forward_start(message),
        },
        InternalMessageView::LocalScope(_) => nothing_to_deliver(),
    }
}

/// The hub.
pub struct Server {
    sessions: HashSet<u128>,
}

impl View for Server {
    type V = Set<SessionId>;

    /// The directory: the sessions that can be delivered to.
    closed spec fn view(&self) -> Set<SessionId> {
        Set::new(|s: SessionId| self.sessions@.contains(s.0))
    }
}

fn done_with_nothing() -> (step: Step)
    ensures
        step@ == nothing_to_deliver(),
{
    let step = Step::Done(Vec::new());
    proof {
        lemma_views_empty::<Delivery>();
    }
    step
}

fn is_done(reply: &StoreReply) -> (done: bool)
    ensures
        done == (reply@ is Done),
{
    match reply {
        StoreReply::Done => true,
        _ => false,
    }
}

impl Server {
    /// A hub with an empty directory.
    pub fn new() -> (server: Server)
        ensures
            server@ == Set::<SessionId>::empty(),
    {
        let server = Server { sessions: HashSet::new() };
        assert(server@ =~= Set::<SessionId>::empty());
        server
    }

    /// Whether `session_id` is in the directory.
    pub fn reaches(&self, session_id: SessionId) -> (found: bool)
        ensures
            found == self@.contains(session_id),
    {
        broadcast use vstd::std_specs::hash::group_hash_axioms;

        self.sessions.contains(&session_id.0)
    }

    /// The members of a room according to a reply of the store.
    pub fn room_members(reply: &StoreReply) -> (members: Vec<SessionId>)
        ensures
            members@ == reply_members(reply@),
    {
        let mut members: Vec<SessionId> = Vec::new();
        match reply {
            StoreReply::Members(listing) => {
                let mut i: usize = 0;
                assert(views(listing@.take(0)) =~= Seq::<Seq<char>>::empty());
                while i < listing.len()
                    invariant
                        i <= listing.len(),
                        members@ == listed_members(views(listing@.take(i as int))),
                    decreases listing.len() - i,
                {
                    proof {
                        let next = views(listing@.take(i as int + 1));
                        assert(next.drop_last() =~= views(listing@.take(i as int)));
                        assert(next.last() == listing@[i as int]@);
                    }
                    match SessionId::try_from(listing[i].as_str()) {
                        Ok(member) => {
                            members.push(member);
                        },
                        Err(_) => {},
                    }
                    i = i + 1;
                }
                assert(listing@.take(i as int) =~= listing@);
            },
            _ => {},
        }
        members
    }

    /// The members whose name is known according to a reply of the store,
    /// each as the text of its identifier and its name.
    pub fn room_members_name(members: &Vec<SessionId>, reply: &StoreReply) -> (present: Vec<
        (String, String),
    >)
        ensures
            pair_views(present@) == present_members(members@, reply_names(reply@)),
            read_back(named_members(members@, reply_names(reply@))),
    {
        let mut present: Vec<(String, String)> = Vec::new();
        assert(pair_views(present@) =~= Seq::<(Seq<char>, Seq<char>)>::empty());
        match reply {
            StoreReply::Names(names) => {
                if names.len() == members.len() {
                    let mut i: usize = 0;
                    assert(option_views(names@.take(0)) =~= Seq::<Option<Seq<char>>>::empty());
                    while i < members.len()
                        invariant
                            i <= members.len(),
                            names.len() == members.len(),
                            pair_views(present@) == present_members(
                                members@.take(i as int),
                                option_views(names@.take(i as int)),
                            ),
                            read_back(
                                named_members(
                                    members@.take(i as int),
                                    option_views(names@.take(i as int)),
                                ),
                            ),
                        decreases members.len() - i,
                    {
                        proof {
                            let next_members = members@.take(i as int + 1);
                            let next_names = option_views(names@.take(i as int + 1));
                            assert(next_members.drop_last() =~= members@.take(i as int));
                            assert(next_names.drop_last() =~= option_views(
                                names@.take(i as int),
                            ));
                            assert(next_members.last() == members@[i as int]);
                            assert(next_names.last() == crate::view::option_view(
                                names@[i as int],
                            ));
                        }
                        match &names[i] {
                            Some(name) => {
                                let pair = (members[i].to_string(), name.clone());
                                proof {
                                    lemma_pair_views_push(present@, pair);
                                }
                                present.push(pair);
                            },
                            None => {},
                        }
                        i = i + 1;
                    }
                    assert(members@.take(i as int) =~= members@);
                    assert(names@.take(i as int) =~= names@);
                } else {
                    assert(option_views(names@).len() == names@.len());
                }
            },
            _ => {},
        }
        present
    }

    /// The deliveries of `message` to those of `members` that are in the
    /// directory, but not to `except`.
    fn deliveries(
        &self,
        members: &Vec<SessionId>,
        except: Option<SessionId>,
        message: &InternalMessage,
    ) -> (out: Vec<Delivery>)
        ensures
            views(out@) == fanout(members@, self@, except, message@),
    {
        let mut out: Vec<Delivery> = Vec::new();
        let mut i: usize = 0;
        proof {
            lemma_views_empty::<Delivery>();
        }
        while i < members.len()
            invariant
                i <= members.len(),
                views(out@) == fanout(members@.take(i as int), self@, except, message@),
            decreases members.len() - i,
        {
            proof {
                let next = members@.take(i as int + 1);
                assert(next.drop_last() =~= members@.take(i as int));
                assert(next.last() == members@[i as int]);
            }
            let member = members[i];
            let excepted = match except {
                Some(excluded) => excluded == member,
                None => false,
            };
            if self.reaches(member) && !excepted {
                let delivery = Delivery { to: member, message: message.duplicate() };
                proof {
                    lemma_views_push(out@, delivery);
                }
                out.push(delivery);
            }
            i = i + 1;
        }
        assert(members@.take(i as int) =~= members@);
        out
    }

    /// Begins the admission of session `session_id`, called `name`, to room
    /// `room_id`.
    pub fn add_session(&self, room_id: RoomId, session_id: SessionId, name: String) -> (step: Step)
        ensures
            step@ == join_start(room_id, session_id, name@),
    {
        let present: Vec<(String, String)> = Vec::new();
        assert(pair_views(present@) =~= Seq::<(Seq<char>, Seq<char>)>::empty());
        Step::Ask {
            request: StoreRequest::Open,
            then: Pending::Join {
                stage: JoinStage::Open,
                room_id,
                session_id,
                name,
                members: Vec::new(),
                present,
            },
        }
    }

    /// Begins the departure of session `session_id` from room `room_id`.
    pub fn remove_session(&self, room_id: RoomId, session_id: SessionId) -> (step: Step)
        ensures
            step@ == leave_start(room_id, session_id),
    {
        Step::Ask {
            request: StoreRequest::Open,
            then: Pending::Leave { stage: LeaveStage::Open, room_id, session_id },
        }
    }

    /// Begins to forward `message` to the rest of its room.
    pub fn forward(&self, message: GlobalScopeMessage) -> (step: Step)
        ensures
            step@ == forward_start(message@),
    {
        Step::Ask {
            request: StoreRequest::Members { key: members_key(message.room_id) },
            then: Pending::Forward { message },
        }
    }

    /// Begins what the hub does with a message it was sent.
    pub fn handle(&self, message: InternalMessage) -> (step: Step)
        ensures
            step@ == handle_start(message@),
    {
        match message {
            InternalMessage::GlobalScope(GlobalScopeMessage { session_id, room_id, message }) => {
                match message {
                    GlobalMessage::AddSession(name) => self.add_session(room_id, session_id, name),
                    GlobalMessage::RemoveSession => self.remove_session(room_id, session_id),
                    GlobalMessage::AddProducer(producer) => self.forward(
                        GlobalScopeMessage {
                            session_id,
                            room_id,
                            message: GlobalMessage::AddProducer(producer),
                        },
                    ),
                    GlobalMessage::RemoveProducer(producer) => self.forward(
                        GlobalScopeMessage {
                            session_id,
                            room_id,
                            message: GlobalMessage::RemoveProducer(producer),
                        },
                    ),
                    GlobalMessage::ForwardMessage(forwarded) => self.forward(
                        GlobalScopeMessage {
                            session_id,
                            room_id,
                            message: GlobalMessage::ForwardMessage(forwarded),
                        },
                    ),
                }
            },
            InternalMessage::LocalScope(_) => done_with_nothing(),
        }
    }

    /// Goes on with the operation `pending`, now that the store has
    /// answered with `reply`.
    pub fn resume(&mut self, pending: Pending, reply: StoreReply) -> (step: Step)
        ensures
            (final(self)@, step@) == resume_step(old(self)@, pending@, reply@),
    {
        broadcast use vstd::std_specs::hash::group_hash_axioms;

        match pending {
            Pending::Join { stage, room_id, session_id, name, members, present } => {
                match stage {
                    JoinStage::Open => {
                        if is_done(&reply) {
                            self.sessions.insert(session_id.0);
                            assert(final(self)@ =~= old(self)@.insert(session_id));
                            Step::Ask {
                                request: StoreRequest::Members { key: members_key(room_id) },
                                then: Pending::Join {
                                    stage: JoinStage::Members,
                                    room_id,
                                    session_id,
                                    name,
                                    members,
                                    present,
                                },
                            }
                        } else {
                            done_with_nothing()
                        }
                    },
                    JoinStage::Members => {
                        let members = Server::room_members(&reply);
                        Step::Ask {
                            request: StoreRequest::Names { keys: name_keys(room_id, &members) },
                            then: Pending::Join {
                                stage: JoinStage::Names,
                                room_id,
                                session_id,
                                name,
                                members,
                                present,
                            },
                        }
                    },
                    JoinStage::Names => {
                        let present = Server::room_members_name(&members, &reply);
                        Step::Ask {
                            request: StoreRequest::AddMember {
                                key: members_key(room_id),
                                member: session_id.to_string(),
                            },
                            then: Pending::Join {
                                stage: JoinStage::Add,
                                room_id,
                                session_id,
                                name,
                                members,
                                present,
                            },
                        }
                    },
                    JoinStage::Add => {
                        if is_done(&reply) {
                            Step::Ask {
                                request: StoreRequest::SetName {
                                    key: name_key(room_id, session_id),
                                    name: name.clone(),
                                },
                                then: Pending::Join {
                                    stage: JoinStage::SetName,
                                    room_id,
                                    session_id,
                                    name,
                                    members,
                                    present,
                                },
                            }
                        } else {
                            done_with_nothing()
                        }
                    },
                    JoinStage::SetName => {
                        if is_done(&reply) {
                            Step::Ask {
                                request: StoreRequest::Members { key: members_key(room_id) },
                                then: Pending::Join {
                                    stage: JoinStage::Announce,
                                    room_id,
                                    session_id,
                                    name,
                                    members,
                                    present,
                                },
                            }
                        } else {
                            done_with_nothing()
                        }
                    },
                    JoinStage::Announce => {
                        let listed = Server::room_members(&reply);
                        let announcement = InternalMessage::GlobalScope(
                            GlobalScopeMessage {
                                session_id,
                                room_id,
                                message: GlobalMessage::AddSession(name),
                            },
                        );
                        let mut out = self.deliveries(&listed, None, &announcement);
                        let welcome = Delivery {
                            to: session_id,
                            message: InternalMessage::LocalScope(
                                LocalScopeMessage::PresentMembers(present),
                            ),
                        };
                        proof {
                            lemma_views_push(out@, welcome);
                        }
                        out.push(welcome);
                        Step::Done(out)
                    },
                }
            },
            Pending::Leave { stage, room_id, session_id } => {
                match stage {
                    LeaveStage::Open => {
                        if is_done(&reply) {
                            self.sessions.remove(&session_id.0);
                            assert(final(self)@ =~= old(self)@.remove(session_id));
                            Step::Ask {
                                request: StoreRequest::RemoveMember {
                                    key: members_key(room_id),
                                    member: session_id.to_string(),
                                },
                                then: Pending::Leave {
                                    stage: LeaveStage::Remove,
                                    room_id,
                                    session_id,
                                },
                            }
                        } else {
                            done_with_nothing()
                        }
                    },
                    LeaveStage::Remove => {
                        if is_done(&reply) {
                            Step::Ask {
                                request: StoreRequest::DeleteName {
                                    key: name_key(room_id, session_id),
                                },
                                then: Pending::Leave {
                                    stage: LeaveStage::Delete,
                                    room_id,
                                    session_id,
                                },
                            }
                        } else {
                            done_with_nothing()
                        }
                    },
                    LeaveStage::Delete => Step::Ask {
                        request: StoreRequest::Members { key: members_key(room_id) },
                        then: Pending::Leave { stage: LeaveStage::Announce, room_id, session_id },
                    },
                    LeaveStage::Announce => {
                        let listed = Server::room_members(&reply);
                        let announcement = InternalMessage::GlobalScope(
                            GlobalScopeMessage {
                                session_id,
                                room_id,
                                message: GlobalMessage::RemoveSession,
                            },
                        );
                        Step::Done(self.deliveries(&listed, None, &announcement))
                    },
                }
            },
            Pending::Forward { message } => {
                let listed = Server::room_members(&reply);
                let origin = message.session_id;
                let wrapped = InternalMessage::GlobalScope(message);
                Step::Done(self.deliveries(&listed, Some(origin), &wrapped))
            },
        }
    }
}

/// The members whose name is known, in order. `names` holds one entry for
/// each of `members`; where it does not, no member's name counts as known.
pub open spec fn named_members(members: Seq<SessionId>, names: Seq<Option<Seq<char>>>) -> Seq<
    SessionId,
>
    decreases members.len(),
{
    if members.len() == 0 || names.len() != members.len() {
        Seq::empty()
    } else {
        match names.last() {
            Some(_) => named_members(members.drop_last(), names.drop_last()).push(members.last()),
            None => named_members(members.drop_last(), names.drop_last()),
        }
    }
}

/// True where each of `ids` is what its canonical text reads as.
pub open spec fn read_back(ids: Seq<SessionId>) -> bool {
    forall|i: int| 0 <= i < ids.len() ==> parsed_uuid(hyphenated((#[trigger] ids[i]).0)) == Some(
        ids[i].0,
    )
}

} // verus!
