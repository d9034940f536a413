//! The registry: for each room identifier, the room that is in use under
//! it, if any.
//!
//! A room is in use while somebody holds it. Holders are counted: looking a
//! room up makes the caller a holder, and each holder releases the room
//! once. With the last release the room leaves the registry, though its
//! entry stays behind, empty, until a room is created under the identifier
//! again.
//!
//! The registry does not look into rooms. What it keeps of a room is a
//! value of type `H`, which may be the room or a handle to it.

use crate::webrtc::room::RoomId;
use std::collections::HashMap;
use vstd::prelude::*;

verus! {

/// An entry of the registry.
pub struct WeakRoom<H> {
    /// The room and the number of its holders beyond the first.
    held: Option<(H, usize)>,
}

/// What an entry of the registry stands for: the room that is in use, if
/// any, and the number of its holders.
pub struct Entry<H> {
    pub room: Option<H>,
    pub holders: nat,
}

impl<H> View for WeakRoom<H> {
    type V = Entry<H>;

    closed spec fn view(&self) -> Entry<H> {
        match self.held {
            Some((room, extra)) => Entry { room: Some(room), holders: extra as nat + 1 },
            None => Entry { room: None, holders: 0 },
        }
    }
}

impl<H> WeakRoom<H> {
    /// The entry of a room that has just been created, held by its creator.
    pub fn new(room: H) -> (entry: WeakRoom<H>)
        ensures
            entry@ == (Entry { room: Some(room), holders: 1 }),
    {
        WeakRoom { held: Some((room, 0)) }
    }

    /// The room, if it is still in use.
    pub fn upgrade(&self) -> (room: Option<&H>)
        ensures
            match room {
                Some(room) => self@.room == Some(*room),
                None => self@.room is None,
            },
    {
        match &self.held {
            Some((room, _)) => Some(room),
            None => None,
        }
    }

    /// An entry holds a room exactly while the room has a holder.
    pub proof fn lemma_in_use_while_held(self)
        ensures
            self@.room is Some <==> self@.holders > 0,
    {
    }
}

/// True where a room is in use under `room_id`.
pub open spec fn in_use<H>(entries: Map<RoomId, Entry<H>>, room_id: RoomId) -> bool {
    entries.contains_key(room_id) && entries[room_id].room is Some
}

/// The entries after a lookup of `room_id`, and whether it found a room. A
/// room that is in use is found and gains a holder. Otherwise nothing is
/// found and nothing changes.
pub open spec fn looked_up<H>(entries: Map<RoomId, Entry<H>>, room_id: RoomId) -> (
    Map<RoomId, Entry<H>>,
    bool,
) {
    if in_use(entries, room_id) {
        (
            entries.insert(
                room_id,
                Entry { room: entries[room_id].room, holders: entries[room_id].holders + 1 },
            ),
            true,
        )
    } else {
        (entries, false)
    }
}

/// The entries after `room` has been created under `room_id`: the room is
/// in use there, held by its creator alone.
pub open spec fn created<H>(entries: Map<RoomId, Entry<H>>, room_id: RoomId, room: H) -> Map<
    RoomId,
    Entry<H>,
> {
    entries.insert(room_id, Entry { room: Some(room), holders: 1 })
}

/// The entries after one holder has released the room under `room_id`. The
/// last release empties the entry.
pub open spec fn released<H>(entries: Map<RoomId, Entry<H>>, room_id: RoomId) -> Map<
    RoomId,
    Entry<H>,
> {
    if !in_use(entries, room_id) {
        entries
    } else if entries[room_id].holders <= 1 {
        entries.insert(room_id, Entry { room: None, holders: 0 })
    } else {
        entries.insert(
            room_id,
            Entry { room: entries[room_id].room, holders: (entries[room_id].holders - 1) as nat },
        )
    }
}

/// The entries after `n` lookups of `room_id` in a row.
pub open spec fn looked_up_times<H>(entries: Map<RoomId, Entry<H>>, room_id: RoomId, n: nat) -> Map<
    RoomId,
    Entry<H>,
>
    decreases n,
{
    if n == 0 {
        entries
    } else {
        looked_up(looked_up_times(entries, room_id, (n - 1) as nat), room_id).0
    }
}

/// The entries after `n` releases of `room_id` in a row.
pub open spec fn released_times<H>(entries: Map<RoomId, Entry<H>>, room_id: RoomId, n: nat) -> Map<
    RoomId,
    Entry<H>,
>
    decreases n,
{
    if n == 0 {
        entries
    } else {
        released(released_times(entries, room_id, (n - 1) as nat), room_id)
    }
}

/// Once a room has been created under an identifier, every lookup of the
/// identifier finds that very room, however many lookups there are: after
/// `n` of them the room is in use by its creator and `n` more holders, and
/// the next lookup finds it again. So no second room is ever asked for
/// while the first is held.
pub proof fn lemma_lookups_find_the_created_room<H>(
    entries: Map<RoomId, Entry<H>>,
    room_id: RoomId,
    room: H,
    n: nat,
)
    ensures
        in_use(looked_up_times(created(entries, room_id, room), room_id, n), room_id),
        looked_up_times(created(entries, room_id, room), room_id, n)[room_id] == (Entry {
            room: Some(room),
            holders: n + 1,
        }),
        looked_up(looked_up_times(created(entries, room_id, room), room_id, n), room_id).1,
    decreases n,
{
    if n > 0 {
        lemma_lookups_find_the_created_room(entries, room_id, room, (n - 1) as nat);
    }
}

/// A room stays in the registry as long as one of its holders has not
/// released it, and leaves it with the last release: of a room with
/// `holders` holders, `n` releases leave the same room with the remaining
/// holders if `n` is less than `holders`, and no room if it is not.
pub proof fn lemma_room_leaves_with_last_holder<H>(
    entries: Map<RoomId, Entry<H>>,
    room_id: RoomId,
    n: nat,
)
    requires
        in_use(entries, room_id),
        entries[room_id].holders >= 1,
    ensures
        n < entries[room_id].holders ==> released_times(entries, room_id, n)[room_id] == (Entry {
            room: entries[room_id].room,
            holders: (entries[room_id].holders - n) as nat,
        }) && in_use(released_times(entries, room_id, n), room_id),
        n >= entries[room_id].holders ==> !in_use(released_times(entries, room_id, n), room_id),
    decreases n,
{
    if n > 0 {
        lemma_room_leaves_with_last_holder(entries, room_id, (n - 1) as nat);
    }
}

/// The registry.
pub struct Registry<H> {
    rooms: HashMap<u128, WeakRoom<H>>,
}

impl<H> View for Registry<H> {
    type V = Map<RoomId, Entry<H>>;

    closed spec fn view(&self) -> Map<RoomId, Entry<H>> {
        Map::new(|id: RoomId| self.rooms@.contains_key(id.0), |id: RoomId| self.rooms@[id.0]@)
    }
}

impl<H> Registry<H> {
    /// A registry without entries.
    pub fn new() -> (registry: Registry<H>)
        ensures
            registry@ == Map::<RoomId, Entry<H>>::empty(),
    {
        let registry = Registry { rooms: HashMap::new() };
        assert(registry@ =~= Map::<RoomId, Entry<H>>::empty());
        registry
    }

    /// In every entry, a room is kept exactly while it has a holder.
    pub proof fn lemma_in_use_while_held(self, room_id: RoomId)
        requires
            self@.contains_key(room_id),
        ensures
            self@[room_id].room is Some <==> self@[room_id].holders > 0,
    {
        self.rooms@[room_id.0].lemma_in_use_while_held();
    }

    /// The room that is in use under `room_id`, if any.
    pub fn room(&self, room_id: RoomId) -> (room: Option<&H>)
        ensures
            match room {
                Some(room) => in_use(self@, room_id) && self@[room_id].room == Some(*room),
                None => !in_use(self@, room_id),
            },
    {
        broadcast use vstd::std_specs::hash::group_hash_axioms;

        match self.rooms.get(&room_id.0) {
            Some(entry) => entry.upgrade(),
            None => None,
        }
    }

    /// The number of holders of the room under `room_id`, as far as it can
    /// be counted: a number beyond the largest countable one is reported as
    /// the largest countable one. Where there is no entry, it is zero.
    pub fn holders(&self, room_id: RoomId) -> (count: usize)
        ensures
            count == if !self@.contains_key(room_id) {
                0
            } else if self@[room_id].holders <= usize::MAX {
                self@[room_id].holders as int
            } else {
                usize::MAX as int
            },
    {
        broadcast use vstd::std_specs::hash::group_hash_axioms;

        match self.rooms.get(&room_id.0) {
            Some(entry) => match &entry.held {
                Some((_, extra)) => if *extra < usize::MAX {
                    *extra + 1
                } else {
                    usize::MAX
                },
                None => 0,
            },
            None => 0,
        }
    }

    /// Looks up the room under `room_id` on behalf of a new holder. Where a
    /// room is in use, the caller now holds it too, and `true` is returned.
    /// Where none is, `false` is returned, and it is for the caller to have
    /// a room created and to hand it to `room_created`.
    ///
    /// The holder must be countable.
    pub fn get_or_create_room(&mut self, room_id: RoomId) -> (found: bool)
        requires
            in_use(old(self)@, room_id) ==> old(self)@[room_id].holders <= usize::MAX,
        ensures
            (final(self)@, found) == looked_up(old(self)@, room_id),
    {
        broadcast use vstd::std_specs::hash::group_hash_axioms;

        match self.rooms.remove(&room_id.0) {
            Some(entry) => {
                match entry.held {
                    Some((room, extra)) => {
                        self.rooms.insert(room_id.0, WeakRoom { held: Some((room, extra + 1)) });
                        assert(final(self)@ =~= looked_up(old(self)@, room_id).0);
                        true
                    },
                    None => {
                        self.rooms.insert(room_id.0, WeakRoom { held: None });
                        assert(final(self)@ =~= old(self)@);
                        false
                    },
                }
            },
            None => {
                assert(final(self)@ =~= old(self)@);
                false
            },
        }
    }

    /// Takes the outcome of the creation of a room under `room_id`, after
    /// `get_or_create_room` found none there. A room that was created is in
    /// use from now on, held by the caller; whatever entry there was is
    /// replaced. A failure leaves the registry as it was and is passed on.
    pub fn room_created(&mut self, room_id: RoomId, outcome: Result<H, String>) -> (r: Result<
        (),
        String,
    >)
        requires
            !in_use(old(self)@, room_id),
        ensures
            match outcome {
                Ok(room) => r is Ok && final(self)@ == created(old(self)@, room_id, room),
                Err(text) => r == Err::<(), String>(text) && final(self)@ == old(self)@,
            },
    {
        broadcast use vstd::std_specs::hash::group_hash_axioms;

        match outcome {
            Ok(room) => {
                self.rooms.insert(room_id.0, WeakRoom::new(room));
                assert(final(self)@ =~= created(old(self)@, room_id, room));
                Ok(())
            },
            Err(text) => Err(text),
        }
    }

    /// Releases the room under `room_id` on behalf of one of its holders.
    /// With the last holder the room leaves the registry and is returned,
    /// for the caller to dispose of.
    pub fn release(&mut self, room_id: RoomId) -> (last: Option<H>)
        ensures
            final(self)@ == released(old(self)@, room_id),
            match last {
                Some(room) => in_use(old(self)@, room_id) && old(self)@[room_id].holders == 1
                    && old(self)@[room_id].room == Some(room),
                None => !in_use(old(self)@, room_id) || old(self)@[room_id].holders > 1,
            },
    {
        broadcast use vstd::std_specs::hash::group_hash_axioms;

        match self.rooms.remove(&room_id.0) {
            Some(entry) => {
                match entry.held {
                    Some((room, extra)) => {
                        if extra == 0 {
                            self.rooms.insert(room_id.0, WeakRoom { held: None });
                            assert(final(self)@ =~= released(old(self)@, room_id));
                            Some(room)
                        } else {
                            self.rooms.insert(
                                room_id.0,
                                WeakRoom { held: Some((room, extra - 1)) },
                            );
                            assert(final(self)@ =~= released(old(self)@, room_id));
                            None
                        }
                    },
                    None => {
                        self.rooms.insert(room_id.0, WeakRoom { held: None });
                        assert(final(self)@ =~= old(self)@);
                        None
                    },
                }
            },
            None => {
                assert(final(self)@ =~= old(self)@);
                None
            },
        }
    }
}

} // verus!
