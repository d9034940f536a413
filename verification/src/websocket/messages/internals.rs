//! The messages that sessions and the hub exchange among themselves.
//!
//! They come in two families. A room-scope message is an event meant for
//! every other participant of a room; a local-scope message is meant for the
//! one session that receives it.

use crate::media::{ConsumerId, ProducerId};
use crate::view::{clone_bytes, clone_text_pairs, pair_views};
use crate::webrtc::room::RoomId;
use crate::websocket::session::SessionId;
use vstd::prelude::*;

verus! {

/// A payload that is passed on to the room as it came.
#[derive(Debug, Clone, PartialEq, Eq)]
pub enum Forwarded {
    Text(String),
    Binary(Vec<u8>),
}

/// What a `Forwarded` stands for: the same value, with texts and lists as
/// sequences.
pub enum ForwardedView {
    Text(Seq<char>),
    Binary(Seq<u8>),
}

impl View for Forwarded {
    type V = ForwardedView;

    open spec fn view(&self) -> ForwardedView {
        match *self {
            Forwarded::Text(text) => ForwardedView::Text(text@),
            Forwarded::Binary(bytes) => ForwardedView::Binary(bytes@),
        }
    }
}

impl Forwarded {
    /// A copy of the payload.
    pub fn duplicate(&self) -> (copy: Forwarded)
        ensures
            copy@ == self@,
    {
        match self {
            Forwarded::Text(text) => Forwarded::Text(text.clone()),
            Forwarded::Binary(bytes) => Forwarded::Binary(clone_bytes(bytes)),
        }
    }
}

/// What happened in a room.
#[derive(Debug, Clone, PartialEq, Eq)]
pub enum GlobalMessage {
    /// A session joined, under the given display name.
    AddSession(String),
    ForwardMessage(Forwarded),
    AddProducer(ProducerId),
    RemoveProducer(ProducerId),
    RemoveSession,
}

/// What a `GlobalMessage` stands for: the same value, with texts and lists as
/// sequences.
pub enum GlobalMessageView {
    AddSession(Seq<char>),
    ForwardMessage(ForwardedView),
    AddProducer(ProducerId),
    RemoveProducer(ProducerId),
    RemoveSession,
}

impl View for GlobalMessage {
    type V = GlobalMessageView;

    open spec fn view(&self) -> GlobalMessageView {
        match *self {
            GlobalMessage::AddSession(name) => GlobalMessageView::AddSession(name@),
            GlobalMessage::ForwardMessage(forwarded) => GlobalMessageView::ForwardMessage(
                forwarded@,
            ),
            GlobalMessage::AddProducer(id) => GlobalMessageView::AddProducer(id),
            GlobalMessage::RemoveProducer(id) => GlobalMessageView::RemoveProducer(id),
            GlobalMessage::RemoveSession => GlobalMessageView::RemoveSession,
        }
    }
}

impl GlobalMessage {
    /// A copy of the message.
    pub fn duplicate(&self) -> (copy: GlobalMessage)
        ensures
            copy@ == self@,
    {
        match self {
            GlobalMessage::AddSession(name) => GlobalMessage::AddSession(name.clone()),
            GlobalMessage::ForwardMessage(forwarded) => GlobalMessage::ForwardMessage(
                forwarded.duplicate(),
            ),
            GlobalMessage::AddProducer(id) => GlobalMessage::AddProducer(*id),
            GlobalMessage::RemoveProducer(id) => GlobalMessage::RemoveProducer(*id),
            GlobalMessage::RemoveSession => GlobalMessage::RemoveSession,
        }
    }
}

/// A room-scope message: an event, the session it stems from and the room
/// it happened in.
#[derive(Debug, Clone, PartialEq, Eq)]
pub struct GlobalScopeMessage {
    pub session_id: SessionId,
    pub room_id: RoomId,
    pub message: GlobalMessage,
}

/// What a `GlobalScopeMessage` stands for: the same value, with texts and lists as
/// sequences.
pub struct GlobalScopeMessageView {
    pub session_id: SessionId,
    pub room_id: RoomId,
    pub message: GlobalMessageView,
}

impl View for GlobalScopeMessage {
    type V = GlobalScopeMessageView;

    open spec fn view(&self) -> GlobalScopeMessageView {
        GlobalScopeMessageView {
            session_id: self.session_id,
            room_id: self.room_id,
            message: self.message@,
        }
    }
}

impl GlobalScopeMessage {
    /// A copy of the message.
    pub fn duplicate(&self) -> (copy: GlobalScopeMessage)
        ensures
            copy@ == self@,
    {
        GlobalScopeMessage {
            session_id: self.session_id,
            room_id: self.room_id,
            message: self.message.duplicate(),
        }
    }
}

/// A local-scope message.
#[derive(Debug, Clone, PartialEq, Eq)]
pub enum LocalScopeMessage {
    SaveProducer(ProducerId),
    SaveConsumer(ConsumerId),
    /// The participants that were in the room before the receiver joined,
    /// each as the text of its identifier and its display name.
    PresentMembers(Vec<(String, String)>),
    Stop,
}

/// What a `LocalScopeMessage` stands for: the same value, with texts and lists as
/// sequences.
pub enum LocalScopeMessageView {
    SaveProducer(ProducerId),
    SaveConsumer(ConsumerId),
    PresentMembers(Seq<(Seq<char>, Seq<char>)>),
    Stop,
}

impl View for LocalScopeMessage {
    type V = LocalScopeMessageView;

    open spec fn view(&self) -> LocalScopeMessageView {
        match *self {
            LocalScopeMessage::SaveProducer(id) => LocalScopeMessageView::SaveProducer(id),
            LocalScopeMessage::SaveConsumer(id) => LocalScopeMessageView::SaveConsumer(id),
            LocalScopeMessage::PresentMembers(members) => LocalScopeMessageView::PresentMembers(
                pair_views(members@),
            ),
            LocalScopeMessage::Stop => LocalScopeMessageView::Stop,
        }
    }
}

impl LocalScopeMessage {
    /// A copy of the message.
    pub fn duplicate(&self) -> (copy: LocalScopeMessage)
        ensures
            copy@ == self@,
    {
        match self {
            LocalScopeMessage::SaveProducer(id) => LocalScopeMessage::SaveProducer(*id),
            LocalScopeMessage::SaveConsumer(id) => LocalScopeMessage::SaveConsumer(*id),
            LocalScopeMessage::PresentMembers(members) => LocalScopeMessage::PresentMembers(
                clone_text_pairs(members),
            ),
            LocalScopeMessage::Stop => LocalScopeMessage::Stop,
        }
    }
}

/// Any message that sessions and the hub exchange.
#[derive(Debug, Clone, PartialEq, Eq)]
pub enum InternalMessage {
    GlobalScope(GlobalScopeMessage),
    LocalScope(LocalScopeMessage),
}

/// What a `InternalMessage` stands for: the same value, with texts and lists as
/// sequences.
pub enum InternalMessageView {
    GlobalScope(GlobalScopeMessageView),
    LocalScope(LocalScopeMessageView),
}

impl View for InternalMessage {
    type V = InternalMessageView;

    open spec fn view(&self) -> InternalMessageView {
        match *self {
            InternalMessage::GlobalScope(message) => InternalMessageView::GlobalScope(message@),
            InternalMessage::LocalScope(message) => InternalMessageView::LocalScope(message@),
        }
    }
}

impl InternalMessage {
    /// A copy of the message.
    pub fn duplicate(&self) -> (copy: InternalMessage)
        ensures
            copy@ == self@,
    {
        match self {
            InternalMessage::GlobalScope(message) => InternalMessage::GlobalScope(
                message.duplicate(),
            ),
            InternalMessage::LocalScope(message) => InternalMessage::LocalScope(
                message.duplicate(),
            ),
        }
    }
}

} // verus!
