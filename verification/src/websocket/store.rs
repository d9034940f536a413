//! The presence store, as the hub sees it.
//!
//! The store keeps, for each room, the set of its members and the display
//! name of each member. The hub never talks to it. It states what it wants
//! done as a request, and is handed the outcome as a reply.

use crate::identifier::hyphenated;
use crate::view::{lemma_views_push, option_views, views};
use crate::webrtc::room::RoomId;
use crate::websocket::session::SessionId;
use vstd::prelude::*;
use vstd::string::*;

verus! {

/// One operation on the presence store. Keys and members are spelled out as
/// the store holds them.
#[derive(Debug, Clone, PartialEq, Eq)]
pub enum StoreRequest {
    /// Open a connection to the store.
    Open,
    /// Read the members of the set under `key`.
    Members { key: String },
    /// Read the text under each of `keys`.
    Names { keys: Vec<String> },
    /// Add `member` to the set under `key`.
    AddMember { key: String, member: String },
    /// Put `name` under `key`.
    SetName { key: String, name: String },
    /// Take `member` out of the set under `key`.
    RemoveMember { key: String, member: String },
    /// Delete what is under `key`.
    DeleteName { key: String },
}

/// What a `StoreRequest` stands for: the same value, with texts and lists as
/// sequences.
pub enum StoreRequestView {
    Open,
    Members { key: Seq<char> },
    Names { keys: Seq<Seq<char>> },
    AddMember { key: Seq<char>, member: Seq<char> },
    SetName { key: Seq<char>, name: Seq<char> },
    RemoveMember { key: Seq<char>, member: Seq<char> },
    DeleteName { key: Seq<char> },
}

impl View for StoreRequest {
    type V = StoreRequestView;

    open spec fn view(&self) -> StoreRequestView {
        match *self {
            StoreRequest::Open => StoreRequestView::Open,
            StoreRequest::Members { key } => StoreRequestView::Members { key: key@ },
            StoreRequest::Names { keys } => StoreRequestView::Names { keys: views(keys@) },
            StoreRequest::AddMember { key, member } => StoreRequestView::AddMember {
                key: key@,
                member: member@,
            },
            StoreRequest::SetName { key, name } => StoreRequestView::SetName {
                key: key@,
                name: name@,
            },
            StoreRequest::RemoveMember { key, member } => StoreRequestView::RemoveMember {
                key: key@,
                member: member@,
            },
            StoreRequest::DeleteName { key } => StoreRequestView::DeleteName { key: key@ },
        }
    }
}

/// How an operation on the presence store ended.
#[derive(Debug, Clone, PartialEq, Eq)]
pub enum StoreReply {
    /// The store could not be reached, or refused.
    Failed,
    /// The operation was carried out and has nothing to report.
    Done,
    /// The members that were read, in the store's order.
    Members(Vec<String>),
    /// For each key that was asked for, in order, the text that was read,
    /// or `None` where none could be read.
    Names(Vec<Option<String>>),
}

/// What a `StoreReply` stands for: the same value, with texts and lists as
/// sequences.
pub enum StoreReplyView {
    Failed,
    Done,
    Members(Seq<Seq<char>>),
    Names(Seq<Option<Seq<char>>>),
}

impl View for StoreReply {
    type V = StoreReplyView;

    open spec fn view(&self) -> StoreReplyView {
        match *self {
            StoreReply::Failed => StoreReplyView::Failed,
            StoreReply::Done => StoreReplyView::Done,
            StoreReply::Members(members) => StoreReplyView::Members(views(members@)),
            StoreReply::Names(names) => StoreReplyView::Names(option_views(names@)),
        }
    }
}

/// The key under which the store keeps the members of a room.
pub open spec fn members_key_text(room_id: RoomId) -> Seq<char> {
    "room:"@ + hyphenated(room_id.0) + ":members"@
}

/// The key under which the store keeps the display name of a member of a
/// room.
pub open spec fn name_key_text(room_id: RoomId, member: SessionId) -> Seq<char> {
    "room:"@ + hyphenated(room_id.0) + ":members:"@ + hyphenated(member.0) + ":name"@
}

/// The keys of the display names of `members` in a room, in order.
pub open spec fn name_key_texts(room_id: RoomId, members: Seq<SessionId>) -> Seq<Seq<char>> {
    Seq::new(members.len(), |i: int| name_key_text(room_id, members[i]))
}

/// The key under which the store keeps the members of a room.
pub fn members_key(room_id: RoomId) -> (key: String)
    ensures
        key@ == members_key_text(room_id),
{
    String::from_str("room:").concat(room_id.to_string().as_str()).concat(":members")
}

/// The key under which the store keeps the display name of a member of a
/// room.
pub fn name_key(room_id: RoomId, member: SessionId) -> (key: String)
    ensures
        key@ == name_key_text(room_id, member),
{
    String::from_str("room:").concat(room_id.to_string().as_str()).concat(":members:").concat(
        member.to_string().as_str(),
    ).concat(":name")
}

/// The keys of the display names of `members` in a room, in order.
pub fn name_keys(room_id: RoomId, members: &Vec<SessionId>) -> (keys: Vec<String>)
    ensures
        views(keys@) == name_key_texts(room_id, members@),
{
    let mut keys: Vec<String> = Vec::new();
    let mut i: usize = 0;
    while i < members.len()
        invariant
            i <= members.len(),
            views(keys@) == name_key_texts(room_id, members@.take(i as int)),
        decreases members.len() - i,
    {
        let key = name_key(room_id, members[i]);
        proof {
            lemma_views_push(keys@, key);
            assert(name_key_texts(room_id, members@.take(i as int)).push(key@)
                =~= name_key_texts(room_id, members@.take(i as int + 1)));
        }
        keys.push(key);
        i = i + 1;
    }
    assert(members@.take(i as int) =~= members@);
    keys
}

} // verus!
