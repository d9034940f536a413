//! What holds of sessions and the hub, whatever they are sent.

use crate::identifier::{hyphenated, parsed_uuid};
use crate::media::{ConsumerId, ProducerId};
use crate::websocket::effect::EffectView;
use crate::webrtc::room::RoomId;
use crate::websocket::messages::internals::{
    GlobalMessageView, GlobalScopeMessageView, InternalMessageView, LocalScopeMessageView,
};
use crate::websocket::messages::{ClientMessageView, ServerMessageView};
use crate::websocket::server::{
    fanout, join_start, leave_start, present_members, read_back, reply_members, reply_names,
    resume_step, DeliveryView, PendingView, StepView,
};
use crate::websocket::session::{
    client_step, global_step, internal_step, introductions, SessionId, SessionView,
};
use crate::websocket::store::StoreReplyView;
use vstd::prelude::*;

verus! {

/// True where `effect` tells a client of the participant `id`.
pub open spec fn introduces(effect: EffectView, id: SessionId) -> bool {
    effect matches EffectView::Notify(ServerMessageView::NewComer { session_id, .. })
        && session_id == id
}

/// The participants that a client is told of by `effects`.
pub open spec fn newcomers(effects: Seq<EffectView>) -> Set<SessionId> {
    Set::new(
        |id: SessionId| exists|i: int| 0 <= i < effects.len() && introduces(#[trigger] effects[i], id),
    )
}

/// True where `effect` is a call into the media engine.
pub open spec fn calls_engine(effect: EffectView) -> bool {
    effect is Engine
}

proof fn lemma_newcomers_empty()
    ensures
        newcomers(Seq::<EffectView>::empty()) == Set::<SessionId>::empty(),
{
    assert(newcomers(Seq::<EffectView>::empty()) =~= Set::<SessionId>::empty());
}

proof fn lemma_newcomers_push(effects: Seq<EffectView>, id: SessionId, name: Seq<char>, fresh: bool)
    ensures
        newcomers(
            effects.push(
                EffectView::Notify(
                    ServerMessageView::NewComer { session_id: id, name, just_joined: fresh },
                ),
            ),
        ) == newcomers(effects).insert(id),
{
    let added = EffectView::Notify(
        ServerMessageView::NewComer { session_id: id, name, just_joined: fresh },
    );
    let longer = effects.push(added);
    assert forall|other: SessionId|
        newcomers(longer).contains(other) <==> newcomers(effects).insert(id).contains(other) by {
        if newcomers(longer).contains(other) {
            let i = choose|i: int| 0 <= i < longer.len() && introduces(#[trigger] longer[i], other);
            if i < effects.len() {
                assert(introduces(effects[i], other));
            }
        }
        if newcomers(effects).contains(other) {
            let i = choose|i: int|
                0 <= i < effects.len() && introduces(#[trigger] effects[i], other);
            assert(introduces(longer[i], other));
        }
        if other == id {
            assert(introduces(longer[effects.len() as int], id));
        }
    }
    assert(newcomers(longer) =~= newcomers(effects).insert(id));
}

proof fn lemma_to_set_push(members: Seq<SessionId>, member: SessionId)
    ensures
        members.push(member).to_set() == members.to_set().insert(member),
{
    let longer = members.push(member);
    assert forall|other: SessionId|
        longer.to_set().contains(other) <==> members.to_set().insert(member).contains(other) by {
        if longer.contains(other) {
            let i = choose|i: int| 0 <= i < longer.len() && longer[i] == other;
            if i < members.len() {
                assert(members[i] == other);
            }
        }
        if members.contains(other) {
            let i = choose|i: int| 0 <= i < members.len() && members[i] == other;
            assert(longer[i] == other);
        }
        if other == member {
            assert(longer[members.len() as int] == member);
        }
    }
    assert(longer.to_set() =~= members.to_set().insert(member));
}

/// Of members that all have a name, a session is introduced to each but
/// itself.
proof fn lemma_introduced_to_each(
    own: SessionId,
    members: Seq<SessionId>,
    names: Seq<Option<Seq<char>>>,
)
    requires
        names.len() == members.len(),
        forall|i: int| 0 <= i < names.len() ==> names[i] is Some,
        read_back(members),
    ensures
        newcomers(introductions(own, present_members(members, names))) == members.to_set().remove(
            own,
        ),
    decreases members.len(),
{
    if members.len() == 0 {
        lemma_newcomers_empty();
        assert(members.to_set().remove(own) =~= Set::<SessionId>::empty());
    } else {
        let member = members.last();
        let name = names.last()->Some_0;
        let earlier = present_members(members.drop_last(), names.drop_last());
        let present = present_members(members, names);
        assert(present == earlier.push((hyphenated(member.0), name)));
        assert(present.drop_last() =~= earlier);
        assert(members[members.len() - 1] == member);
        assert(parsed_uuid(hyphenated(member.0)) == Some(member.0));
        assert(read_back(members.drop_last())) by {
            assert forall|i: int| 0 <= i < members.drop_last().len() implies parsed_uuid(
                hyphenated((#[trigger] members.drop_last()[i]).0),
            ) == Some(members.drop_last()[i].0) by {
                assert(members.drop_last()[i] == members[i]);
            }
        }
        lemma_introduced_to_each(own, members.drop_last(), names.drop_last());
        assert(members.drop_last().push(member) =~= members);
        lemma_to_set_push(members.drop_last(), member);
        if member != own {
            lemma_newcomers_push(introductions(own, earlier), member, name, false);
            assert(members.to_set().remove(own) =~= members.drop_last().to_set().remove(
                own,
            ).insert(member));
        } else {
            assert(members.to_set().remove(own) =~= members.drop_last().to_set().remove(own));
        }
    }
}

/// No delivery of a fan-out goes to the session that is excepted, and each
/// goes to a session in the directory.
pub proof fn lemma_fanout_spares_excepted(
    members: Seq<SessionId>,
    local: Set<SessionId>,
    excepted: SessionId,
    message: InternalMessageView,
)
    ensures
        forall|i: int|
            0 <= i < fanout(members, local, Some(excepted), message).len() ==> {
                let delivery = #[trigger] fanout(members, local, Some(excepted), message)[i];
                delivery.to != excepted && local.contains(delivery.to) && delivery.message
                    == message
            },
    decreases members.len(),
{
    if members.len() > 0 {
        lemma_fanout_spares_excepted(members.drop_last(), local, excepted, message);
    }
}

/// A message that is forwarded never comes back to the session it stems
/// from, whoever the members of its room are.
pub proof fn lemma_forward_spares_origin(
    local: Set<SessionId>,
    message: GlobalScopeMessageView,
    reply: StoreReplyView,
)
    ensures
        resume_step(local, PendingView::Forward { message }, reply).0 == local,
        resume_step(local, PendingView::Forward { message }, reply).1 matches StepView::Done(
            deliveries,
        ) && forall|i: int|
            0 <= i < deliveries.len() ==> (#[trigger] deliveries[i]).to != message.session_id,
{
    lemma_fanout_spares_excepted(
        reply_members(reply),
        local,
        message.session_id,
        InternalMessageView::GlobalScope(message),
    );
}

/// A request to consume that comes before the client has sent its
/// capabilities stops the session. No call into the media engine is asked
/// for, so no consumer comes into being, and the client is told nothing.
pub proof fn lemma_consume_needs_capabilities(
    s: SessionView,
    producer_id: ProducerId,
    session_id: SessionId,
)
    requires
        s.rtp_capabilities is None,
    ensures
        client_step(s, ClientMessageView::Consume { producer_id, session_id }) == (
            s,
            seq![EffectView::Local(LocalScopeMessageView::Stop)],
        ),
        forall|i: int|
            0 <= i < client_step(
                s,
                ClientMessageView::Consume { producer_id, session_id },
            ).1.len() ==> !calls_engine(
                #[trigger] client_step(
                    s,
                    ClientMessageView::Consume { producer_id, session_id },
                ).1[i],
            ),
{
}

/// A request to resume a consumer that the session does not have changes
/// nothing and has no effect.
pub proof fn lemma_resume_of_unknown_consumer(s: SessionView, id: ConsumerId)
    requires
        !s.consumers.contains(id),
    ensures
        client_step(s, ClientMessageView::ConsumerResume { id }) == (
            s,
            Seq::<EffectView>::empty(),
        ),
{
}

/// A session tells its client nothing of an event that stems from itself.
pub proof fn lemma_own_events_are_silent(s: SessionView, message: GlobalScopeMessageView)
    requires
        message.session_id == s.id,
    ensures
        global_step(s, message) == Seq::<EffectView>::empty(),
{
}

/// Where an operation of the hub stands after the store has answered the
/// request that it waited on. An operation that is over stays as it is.
pub open spec fn continued(state: (Set<SessionId>, StepView), reply: StoreReplyView) -> (
    Set<SessionId>,
    StepView,
) {
    match state.1 {
        StepView::Ask { request, then } => resume_step(state.0, then, reply),
        StepView::Done(_) => state,
    }
}

/// What an admission comes to, given the replies of the store to the six
/// requests of an admission, in the order in which they are made.
///
/// If the store cannot be opened nothing happens at all. Otherwise the
/// session is in the directory from then on. If the store then adds the
/// session and keeps its name, every member that it lists afterwards and
/// that is in the directory is told of the newcomer, and the newcomer is
/// sent the members that were listed before it was added, with their
/// names.
pub open spec fn admission(
    local: Set<SessionId>,
    room_id: RoomId,
    session_id: SessionId,
    name: Seq<char>,
    opened: StoreReplyView,
    before: StoreReplyView,
    names: StoreReplyView,
    added: StoreReplyView,
    named: StoreReplyView,
    after: StoreReplyView,
) -> (Set<SessionId>, StepView) {
    if !(opened is Done) {
        (local, StepView::Done(Seq::empty()))
    } else if !(added is Done) || !(named is Done) {
        (local.insert(session_id), StepView::Done(Seq::empty()))
    } else {
        (
            local.insert(session_id),
            StepView::Done(
                fanout(
                    reply_members(after),
                    local.insert(session_id),
                    None,
                    InternalMessageView::GlobalScope(
                        GlobalScopeMessageView {
                            session_id,
                            room_id,
                            message: GlobalMessageView::AddSession(name),
                        },
                    ),
                ).push(
                    DeliveryView {
                        to: session_id,
                        message: InternalMessageView::LocalScope(
                            LocalScopeMessageView::PresentMembers(
                                present_members(reply_members(before), reply_names(names)),
                            ),
                        ),
                    },
                ),
            ),
        )
    }
}

/// The steps of an admission, taken one after the other, come to what
/// `admission` says.
pub proof fn lemma_admission_in_steps(
    local: Set<SessionId>,
    room_id: RoomId,
    session_id: SessionId,
    name: Seq<char>,
    opened: StoreReplyView,
    before: StoreReplyView,
    names: StoreReplyView,
    added: StoreReplyView,
    named: StoreReplyView,
    after: StoreReplyView,
)
    ensures
        continued(
            continued(
                continued(
                    continued(
                        continued(
                            continued((local, join_start(room_id, session_id, name)), opened),
                            before,
                        ),
                        names,
                    ),
                    added,
                ),
                named,
            ),
            after,
        ) == admission(
            local,
            room_id,
            session_id,
            name,
            opened,
            before,
            names,
            added,
            named,
            after,
        ),
{
}

/// What a departure comes to, given the replies of the store to the four
/// requests of a departure, in the order in which they are made.
///
/// If the store cannot be opened nothing happens at all. Otherwise the
/// session is out of the directory from then on. If the store then takes
/// the session out, every member that it lists afterwards and that is in
/// the directory is told that the session left.
pub open spec fn departure(
    local: Set<SessionId>,
    room_id: RoomId,
    session_id: SessionId,
    opened: StoreReplyView,
    removed: StoreReplyView,
    deleted: StoreReplyView,
    after: StoreReplyView,
) -> (Set<SessionId>, StepView) {
    if !(opened is Done) {
        (local, StepView::Done(Seq::empty()))
    } else if !(removed is Done) {
        (local.remove(session_id), StepView::Done(Seq::empty()))
    } else {
        (
            local.remove(session_id),
            StepView::Done(
                fanout(
                    reply_members(after),
                    local.remove(session_id),
                    None,
                    InternalMessageView::GlobalScope(
                        GlobalScopeMessageView {
                            session_id,
                            room_id,
                            message: GlobalMessageView::RemoveSession,
                        },
                    ),
                ),
            ),
        )
    }
}

/// The steps of a departure, taken one after the other, come to what
/// `departure` says.
pub proof fn lemma_departure_in_steps(
    local: Set<SessionId>,
    room_id: RoomId,
    session_id: SessionId,
    opened: StoreReplyView,
    removed: StoreReplyView,
    deleted: StoreReplyView,
    after: StoreReplyView,
)
    ensures
        continued(
            continued(
                continued(
                    continued((local, leave_start(room_id, session_id)), opened),
                    removed,
                ),
                deleted,
            ),
            after,
        ) == departure(local, room_id, session_id, opened, removed, deleted, after),
{
}

/// A session that joins a room is told of exactly the members that the
/// presence store listed before it was added, itself excepted, whatever
/// the directory of the hub holds at the time.
///
/// `before` and `names` are the replies of the store to the hub's requests
/// for the members and for their names, `after` is its later listing. The
/// admission ends with the delivery of the members present to the session
/// `s`, and what `s` makes of that delivery introduces its client to the
/// members that `before` lists, less `s` itself. The statement is for
/// admissions that the store lets through, in rooms in which every member
/// that is listed has a name that can be read, and whose members are read
/// back from their canonical text, as `SessionId::to_string` says of every
/// identifier that it formats.
pub proof fn lemma_joiner_is_told_of_prior_members(
    local: Set<SessionId>,
    s: SessionView,
    before: StoreReplyView,
    names: StoreReplyView,
    after: StoreReplyView,
)
    requires
        reply_names(names).len() == reply_members(before).len(),
        forall|i: int| 0 <= i < reply_names(names).len() ==> reply_names(names)[i] is Some,
        read_back(reply_members(before)),
    ensures
        admission(
            local,
            s.room_id,
            s.id,
            s.name,
            StoreReplyView::Done,
            before,
            names,
            StoreReplyView::Done,
            StoreReplyView::Done,
            after,
        ).1 matches StepView::Done(deliveries) && deliveries.len() > 0 && deliveries.last().to
            == s.id && internal_step(s, deliveries.last().message).0 == s && newcomers(
            internal_step(s, deliveries.last().message).1,
        ) == reply_members(before).to_set().remove(s.id),
{
    lemma_introduced_to_each(s.id, reply_members(before), reply_names(names));
}

/// A session that has left is told nothing more: after its departure has
/// reached the store, no fan-out delivers to it.
pub proof fn lemma_departed_is_not_delivered_to(
    local: Set<SessionId>,
    members: Seq<SessionId>,
    gone: SessionId,
    except: Option<SessionId>,
    message: InternalMessageView,
)
    ensures
        forall|i: int|
            0 <= i < fanout(members, local.remove(gone), except, message).len() ==> (
            #[trigger] fanout(members, local.remove(gone), except, message)[i]).to != gone,
    decreases members.len(),
{
    if members.len() > 0 {
        lemma_departed_is_not_delivered_to(local, members.drop_last(), gone, except, message);
    }
}

} // verus!
