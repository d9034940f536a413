//! One meeting: its identity, its routing context and the roster of streams
//! that its participants produce.

use crate::identifier::{format_uuid, hyphenated, parse_uuid, parsed_uuid, IdError};
use crate::media::{EngineFailure, ProducerId};
use crate::webrtc::registry::{Entry, WeakRoom};
use crate::websocket::session::SessionId;
use std::collections::HashMap;
use vstd::prelude::*;
use vstd::std_specs::iter::IteratorSpec;
use vstd::string::*;

verus! {

/// Identifier of a room, supplied from outside.
#[derive(Debug, Clone, Copy, PartialEq, Eq, Hash, Structural)]
pub struct RoomId(pub u128);

impl RoomId {
    /// Reads an identifier from any of the textual forms that identifiers
    /// are written in.
    pub fn try_from(value: &str) -> (r: Result<RoomId, IdError>)
        ensures
            match parsed_uuid(value@) {
                Some(v) => r == Ok::<RoomId, IdError>(RoomId(v)),
                None => r == Err::<RoomId, IdError>(IdError::Malformed),
            },
    {
        match parse_uuid(value) {
            Ok(v) => Ok(RoomId(v)),
            Err(_) => Err(IdError::Malformed),
        }
    }

    /// The canonical text of the identifier, which `try_from` reads back.
    pub fn to_string(&self) -> (text: String)
        ensures
            text@ == hyphenated(self.0),
            parsed_uuid(text@) == Some(self.0),
    {
        format_uuid(self.0)
    }
}

/// The streams of session `s` in a listing, in the order in which the
/// listing holds them.
pub open spec fn produced_in(listing: Seq<(SessionId, ProducerId)>, s: SessionId) -> Seq<
    ProducerId,
>
    decreases listing.len(),
{
    if listing.len() == 0 {
        Seq::empty()
    } else if listing.last().0 == s {
        produced_in(listing.drop_last(), s).push(listing.last().1)
    } else {
        produced_in(listing.drop_last(), s)
    }
}

/// Appending an entry to a listing appends its stream to the streams of the
/// entry's session and leaves those of every other session as they were.
pub proof fn lemma_produced_in_push(
    listing: Seq<(SessionId, ProducerId)>,
    entry: (SessionId, ProducerId),
    s: SessionId,
)
    ensures
        produced_in(listing.push(entry), s) == if entry.0 == s {
            produced_in(listing, s).push(entry.1)
        } else {
            produced_in(listing, s)
        },
{
    assert(listing.push(entry).drop_last() =~= listing);
}

/// The streams that a roster holds for session `s`, oldest first; none for
/// a session that the roster does not know.
pub open spec fn streams_of(roster: Map<SessionId, Seq<ProducerId>>, s: SessionId) -> Seq<
    ProducerId,
> {
    if roster.contains_key(s) {
        roster[s]
    } else {
        Seq::empty()
    }
}

/// The roster after session `s` has added `producer` to its streams.
pub open spec fn roster_with(
    roster: Map<SessionId, Seq<ProducerId>>,
    s: SessionId,
    producer: ProducerId,
) -> Map<SessionId, Seq<ProducerId>> {
    roster.insert(s, streams_of(roster, s).push(producer))
}

/// True of the listings of a roster: for every session they hold exactly
/// its streams, in the roster's order. How the streams of different
/// sessions interleave is left open.
pub open spec fn is_listing(
    roster: Map<SessionId, Seq<ProducerId>>,
    listing: Seq<(SessionId, ProducerId)>,
) -> bool {
    forall|s: SessionId| #[trigger] produced_in(listing, s) == streams_of(roster, s)
}

/// A listing holds an entry of a session only if it holds a stream of it.
pub proof fn lemma_produced_in_covers(
    listing: Seq<(SessionId, ProducerId)>,
    s: SessionId,
    i: int,
)
    requires
        0 <= i < listing.len(),
        listing[i].0 == s,
    ensures
        produced_in(listing, s).len() > 0,
    decreases listing.len(),
{
    if i < listing.len() - 1 {
        lemma_produced_in_covers(listing.drop_last(), s, i);
    }
}

/// What a session has added to a roster is what comes back when it is
/// taken off the roster, and no listing of the roster holds an entry of
/// the session after that.
pub proof fn lemma_removed_session_leaves_nothing(
    roster: Map<SessionId, Seq<ProducerId>>,
    s: SessionId,
    producer: ProducerId,
    listing: Seq<(SessionId, ProducerId)>,
)
    requires
        is_listing(roster_with(roster, s, producer).remove(s), listing),
    ensures
        streams_of(roster_with(roster, s, producer), s) == streams_of(roster, s).push(producer),
        forall|i: int| 0 <= i < listing.len() ==> (#[trigger] listing[i]).0 != s,
{
    assert forall|i: int| 0 <= i < listing.len() implies (#[trigger] listing[i]).0 != s by {
        if listing[i].0 == s {
            lemma_produced_in_covers(listing, s, i);
            assert(produced_in(listing, s) == streams_of(
                roster_with(roster, s, producer).remove(s),
                s,
            ));
        }
    }
}

/// The roster after session `s` has added `producers` to its streams, one
/// after the other.
pub open spec fn roster_with_all(
    roster: Map<SessionId, Seq<ProducerId>>,
    s: SessionId,
    producers: Seq<ProducerId>,
) -> Map<SessionId, Seq<ProducerId>>
    decreases producers.len(),
{
    if producers.len() == 0 {
        roster
    } else {
        roster_with(roster_with_all(roster, s, producers.drop_last()), s, producers.last())
    }
}

/// Whatever a session adds to a roster, one stream after the other, is
/// what the roster holds for it, after what it held before, and the
/// streams of every other session stay as they were. So a session that was
/// not on the roster gets back exactly what it added when it is taken off.
pub proof fn lemma_roster_keeps_what_was_added(
    roster: Map<SessionId, Seq<ProducerId>>,
    s: SessionId,
    producers: Seq<ProducerId>,
)
    ensures
        streams_of(roster_with_all(roster, s, producers), s) == streams_of(roster, s) + producers,
        forall|other: SessionId|
            other != s ==> #[trigger] streams_of(roster_with_all(roster, s, producers), other)
                == streams_of(roster, other),
    decreases producers.len(),
{
    if producers.len() == 0 {
        assert(streams_of(roster, s) + producers =~= streams_of(roster, s));
    } else {
        lemma_roster_keeps_what_was_added(roster, s, producers.drop_last());
        assert((streams_of(roster, s) + producers.drop_last()).push(producers.last())
            =~= streams_of(roster, s) + producers);
        let earlier = roster_with_all(roster, s, producers.drop_last());
        assert forall|other: SessionId| other != s implies #[trigger] streams_of(
            roster_with_all(roster, s, producers),
            other,
        ) == streams_of(roster, other) by {
            assert(streams_of(earlier, other) == streams_of(roster, other));
        }
    }
}

/// The text of the failure that `Room::new` reports for an engine failure.
pub open spec fn engine_failure_text(failure: EngineFailure) -> Seq<char> {
    match failure {
        EngineFailure::Worker(detail) => "Unable to create worker: "@ + detail@,
        EngineFailure::Router(detail) => "Unable to create router: "@ + detail@,
    }
}

/// A room: a routing context of the media engine, of type `R`, and the
/// roster that maps each producing session to its streams, oldest first.
pub struct Room<R> {
    id: RoomId,
    router: R,
    clients: HashMap<u128, Vec<ProducerId>>,
}

impl<R> View for Room<R> {
    type V = Map<SessionId, Seq<ProducerId>>;

    /// The roster.
    closed spec fn view(&self) -> Map<SessionId, Seq<ProducerId>> {
        Map::new(
            |s: SessionId| self.clients@.contains_key(s.0),
            |s: SessionId| self.clients@[s.0]@,
        )
    }
}

impl<R> Room<R> {
    /// The identifier the room was created with.
    pub closed spec fn spec_id(&self) -> RoomId {
        self.id
    }

    /// The routing context the room was created with.
    pub closed spec fn spec_router(&self) -> R {
        self.router
    }

    /// The streams that session `s` produces into this room, oldest first;
    /// empty for a session that the roster does not know.
    pub open spec fn produced_by(&self, s: SessionId) -> Seq<ProducerId> {
        streams_of(self@, s)
    }

    /// True of the listings that `all_producers` may return.
    pub open spec fn lists(&self, listing: Seq<(SessionId, ProducerId)>) -> bool {
        is_listing(self@, listing)
    }

    /// Makes the room around the routing context that the media engine
    /// delivered, with an empty roster; or reports why the engine delivered
    /// none.
    pub fn new(id: RoomId, engine: Result<R, EngineFailure>) -> (r: Result<Room<R>, String>)
        ensures
            match engine {
                Ok(router) => r matches Ok(room) && room.spec_id() == id && room.spec_router()
                    == router && room@ == Map::<SessionId, Seq<ProducerId>>::empty(),
                Err(failure) => r matches Err(text) && text@ == engine_failure_text(failure),
            },
    {
        match engine {
            Ok(router) => {
                let room = Room { id, router, clients: HashMap::new() };
                assert(room@ =~= Map::<SessionId, Seq<ProducerId>>::empty());
                Ok(room)
            },
            Err(EngineFailure::Worker(detail)) => Err(
                String::from_str("Unable to create worker: ").concat(detail.as_str()),
            ),
            Err(EngineFailure::Router(detail)) => Err(
                String::from_str("Unable to create router: ").concat(detail.as_str()),
            ),
        }
    }

    /// Puts the room into an entry of the registry, held by its creator.
    pub fn downgrade(self) -> (entry: WeakRoom<Room<R>>)
        ensures
            entry@ == (Entry { room: Some(self), holders: 1 }),
    {
        WeakRoom::new(self)
    }

    /// The identifier of the room.
    pub fn id(&self) -> (id: RoomId)
        ensures
            id == self.spec_id(),
    {
        self.id
    }

    /// The routing context of the room.
    pub fn router(&self) -> (router: &R)
        ensures
            *router == self.spec_router(),
    {
        &self.router
    }

    /// Every stream that is produced into the room, each with its session.
    pub fn all_producers(&self) -> (listing: Vec<(SessionId, ProducerId)>)
        ensures
            self.lists(listing@),
    {
        broadcast use vstd::std_specs::hash::group_hash_axioms;

        let mut listing: Vec<(SessionId, ProducerId)> = Vec::new();
        let ghost keys = self.clients.keys().remaining().unref();
        for key in it: self.clients.keys()
            invariant
                it.seq().unref() == keys,
                keys.no_duplicates(),
                keys.to_set() == self.clients@.dom(),
                forall|s: SessionId| #[trigger]
                    produced_in(listing@, s) == if keys.take(it.index() as int).contains(s.0) {
                        self.produced_by(s)
                    } else {
                        Seq::empty()
                    },
        {
            let ghost before = listing@;
            let ghost done = keys.take(it.index() as int);
            assert(keys[it.index() as int] == *key);
            assert(keys.to_set().contains(*key));
            assert(!done.contains(*key));
            let session_id = SessionId(*key);
            let producers = self.clients.get(key).unwrap();
            assert(producers@ == self.produced_by(session_id));
            let mut j: usize = 0;
            while j < producers.len()
                invariant
                    j <= producers.len(),
                    producers@ == self.produced_by(session_id),
                    produced_in(listing@, session_id) == producers@.take(j as int),
                    forall|s: SessionId|
                        s != session_id ==> #[trigger] produced_in(listing@, s) == produced_in(
                            before,
                            s,
                        ),
                decreases producers.len() - j,
            {
                let ghost prior = listing@;
                let entry = (session_id, producers[j]);
                listing.push(entry);
                proof {
                    assert forall|s: SessionId|
                        s != session_id implies #[trigger] produced_in(listing@, s)
                        == produced_in(before, s) by {
                        lemma_produced_in_push(prior, entry, s);
                    }
                    lemma_produced_in_push(prior, entry, session_id);
                    assert(producers@.take(j as int).push(producers@[j as int])
                        =~= producers@.take(j as int + 1));
                }
                j = j + 1;
            }
            proof {
                assert(producers@.take(j as int) =~= producers@);
                let next = keys.take(it.index() as int + 1);
                assert(next =~= done.push(*key));
                assert forall|s: SessionId| #[trigger]
                    produced_in(listing@, s) == if next.contains(s.0) {
                        self.produced_by(s)
                    } else {
                        Seq::empty()
                    } by {
                    if s == session_id {
                        assert(next[done.len() as int] == s.0);
                    } else {
                        assert(s.0 != *key);
                        assert(next.contains(s.0) <==> done.contains(s.0)) by {
                            if next.contains(s.0) {
                                let i = choose|i: int| 0 <= i < next.len() && next[i] == s.0;
                                assert(done[i] == s.0);
                            }
                            if done.contains(s.0) {
                                let i = choose|i: int| 0 <= i < done.len() && done[i] == s.0;
                                assert(next[i] == s.0);
                            }
                        }
                    }
                }
            }
        }
        proof {
            assert forall|s: SessionId| #[trigger]
                produced_in(listing@, s) == self.produced_by(s) by {
                assert(keys.take(keys.len() as int) =~= keys);
                if self@.contains_key(s) {
                    assert(keys.to_set().contains(s.0));
                    assert(keys.contains(s.0));
                } else {
                    assert(!keys.to_set().contains(s.0));
                    assert(!keys.contains(s.0));
                }
            }
        }
        listing
    }

    /// Records that `session_id` produces `producer`, after the streams it
    /// already produces.
    pub fn add_producer(&mut self, session_id: SessionId, producer: ProducerId)
        ensures
            final(self)@ == roster_with(old(self)@, session_id, producer),
            final(self).spec_id() == old(self).spec_id(),
            final(self).spec_router() == old(self).spec_router(),
    {
        broadcast use vstd::std_specs::hash::group_hash_axioms;

        let mut producers = match self.clients.remove(&session_id.0) {
            Some(producers) => producers,
            None => Vec::new(),
        };
        producers.push(producer);
        self.clients.insert(session_id.0, producers);
        assert(final(self)@ =~= roster_with(old(self)@, session_id, producer));
    }

    /// Takes `session_id` off the roster and returns the streams it
    /// produced, oldest first; none for a session that the roster does not
    /// know.
    pub fn remove_session(&mut self, session_id: SessionId) -> (producers: Vec<ProducerId>)
        ensures
            producers@ == old(self).produced_by(session_id),
            final(self)@ == old(self)@.remove(session_id),
            final(self).spec_id() == old(self).spec_id(),
            final(self).spec_router() == old(self).spec_router(),
    {
        broadcast use vstd::std_specs::hash::group_hash_axioms;

        let producers = match self.clients.remove(&session_id.0) {
            Some(producers) => producers,
            None => Vec::new(),
        };
        assert(final(self)@ =~= old(self)@.remove(session_id));
        producers
    }
}

} // verus!
