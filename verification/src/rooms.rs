//! The room registry and the fan-out over it.
//!
//! The registry is a map from room names to the members of each room, and a
//! member is a user id with the handle of that user's outbound channel. A room
//! is there exactly as long as it has a member: the first join creates it and
//! the last leave removes it, in the same step that changes the membership.

use std::collections::HashMap;
use vstd::prelude::*;
use crate::assoc::{
    assoc,
    lemma_assoc_empty,
    lemma_assoc_index,
    lemma_assoc_push,
    lemma_assoc_remove,
    lemma_assoc_update,
};
use crate::transport::text_message;
use crate::user::UserTx;

verus! {

/// The members of one room: each user id with that user's outbound handle.
pub type Members = Map<usize, UserTx>;

/// The registry as a map from room names to members.
pub type RoomsView = Map<Seq<char>, Members>;

/// The members of `room`; nobody, if there is no such room.
pub open spec fn members_in(rooms: RoomsView, room: Seq<char>) -> Members {
    if rooms.contains_key(room) {
        rooms[room]
    } else {
        Map::empty()
    }
}

/// Whether nobody is in `members`.
pub open spec fn deserted(members: Members) -> bool {
    forall|user_id: usize| !members.contains_key(user_id)
}

/// The registry after `user_id` has joined `room` with the handle `tx`: the
/// room is created if it was not there, and a user who joins again keeps one
/// entry, with the new handle.
pub open spec fn joined(rooms: RoomsView, room: Seq<char>, user_id: usize, tx: UserTx) -> RoomsView {
    rooms.insert(room, members_in(rooms, room).insert(user_id, tx))
}

/// The registry after `user_id` has left `room`: the room goes with its last
/// member.
pub open spec fn left(rooms: RoomsView, room: Seq<char>, user_id: usize) -> RoomsView {
    let rest = members_in(rooms, room).remove(user_id);
    if deserted(rest) {
        rooms.remove(room)
    } else {
        rooms.insert(room, rest)
    }
}

/// Who is offered a message that `sender_id` sends in `room`: every member of
/// that room but the sender.
pub open spec fn recipients(rooms: RoomsView, room: Seq<char>, sender_id: usize) -> Members {
    members_in(rooms, room).remove(sender_id)
}

/// The registry's invariant: every room that is there has a member.
pub open spec fn no_empty_room(rooms: RoomsView) -> bool {
    forall|room: Seq<char>| #[trigger] rooms.contains_key(room) ==> !deserted(rooms[room])
}

/// The invariant holds of the registry without rooms.
pub proof fn lemma_empty_registry_is_sound()
    ensures
        no_empty_room(Map::<Seq<char>, Members>::empty()),
{
}

/// A join keeps the invariant: the room that it creates or enters has the user
/// who joined.
pub proof fn lemma_join_keeps_invariant(rooms: RoomsView, room: Seq<char>, user_id: usize, tx: UserTx)
    requires
        no_empty_room(rooms),
    ensures
        no_empty_room(joined(rooms, room, user_id, tx)),
{
    let after = joined(rooms, room, user_id, tx);
    assert forall|other: Seq<char>| #[trigger] after.contains_key(other) implies !deserted(
        after[other],
    ) by {
        if other == room {
            assert(after[other].contains_key(user_id));
        } else {
            assert(rooms.contains_key(other));
        }
    }
}

/// A leave keeps the invariant: a room that loses its last member goes with
/// that member.
pub proof fn lemma_leave_keeps_invariant(rooms: RoomsView, room: Seq<char>, user_id: usize)
    requires
        no_empty_room(rooms),
    ensures
        no_empty_room(left(rooms, room, user_id)),
{
    let after = left(rooms, room, user_id);
    assert forall|other: Seq<char>| #[trigger] after.contains_key(other) implies !deserted(
        after[other],
    ) by {
        if other != room {
            assert(rooms.contains_key(other));
        }
    }
}

/// Joining and leaving one room leaves the members of every other room as
/// they were.
pub proof fn lemma_other_rooms_untouched(
    rooms: RoomsView,
    room: Seq<char>,
    other: Seq<char>,
    user_id: usize,
    tx: UserTx,
)
    requires
        room != other,
    ensures
        members_in(joined(rooms, room, user_id, tx), other) == members_in(rooms, other),
        members_in(left(rooms, room, user_id), other) == members_in(rooms, other),
{
}

/// Room isolation: a message sent in room `a` is offered to nobody who is a
/// member of room `b` only, whoever sent it.
pub proof fn lemma_room_isolation(
    rooms: RoomsView,
    a: Seq<char>,
    b: Seq<char>,
    sender_id: usize,
    user_id: usize,
)
    requires
        a != b,
        forall|room: Seq<char>| #[trigger]
            members_in(rooms, room).contains_key(user_id) ==> room == b,
    ensures
        !recipients(rooms, a, sender_id).contains_key(user_id),
{
    if members_in(rooms, a).contains_key(user_id) {
        assert(a == b);
    }
}

/// No self-echo: a message is never offered to its sender.
pub proof fn lemma_no_self_echo(rooms: RoomsView, room: Seq<char>, sender_id: usize)
    ensures
        !recipients(rooms, room, sender_id).contains_key(sender_id),
{
}

/// A message is offered to every other member of the sender's room, with the
/// handle that this member joined with.
pub proof fn lemma_every_other_member_is_offered(
    rooms: RoomsView,
    room: Seq<char>,
    sender_id: usize,
    user_id: usize,
)
    requires
        members_in(rooms, room).contains_key(user_id),
        user_id != sender_id,
    ensures
        recipients(rooms, room, sender_id).contains_key(user_id),
        recipients(rooms, room, sender_id)[user_id] == members_in(rooms, room)[user_id],
{
}

/// Empty-room eviction: when the last member of a room leaves, the room is
/// gone, and a query for its members finds nobody.
pub proof fn lemma_last_leave_evicts(rooms: RoomsView, room: Seq<char>, user_id: usize)
    requires
        forall|other: usize| #[trigger] members_in(rooms, room).contains_key(other) ==> other == user_id,
    ensures
        !left(rooms, room, user_id).contains_key(room),
        members_in(left(rooms, room, user_id), room) == Map::<usize, UserTx>::empty(),
{
}

/// A room that is joined after it was evicted starts afresh: its only member
/// is the user who joined, and nothing of the old membership comes back.
pub proof fn lemma_join_after_eviction_is_fresh(
    rooms: RoomsView,
    room: Seq<char>,
    last: usize,
    newcomer: usize,
    tx: UserTx,
)
    requires
        forall|other: usize| #[trigger] members_in(rooms, room).contains_key(other) ==> other == last,
    ensures
        members_in(joined(left(rooms, room, last), room, newcomer, tx), room) == Map::<
            usize,
            UserTx,
        >::empty().insert(newcomer, tx),
{
    lemma_last_leave_evicts(rooms, room, last);
}

/// Whether `ids` lists the members of `members`: each of them once, and
/// nobody else.
pub open spec fn lists(ids: Seq<usize>, members: Members) -> bool {
    &&& ids.no_duplicates()
    &&& forall|user_id: usize| ids.contains(user_id) <==> #[trigger] members.contains_key(user_id)
}

/// Of the first `n` of `ids`, those whose offer was taken, in their order.
pub open spec fn picked_first(ids: Seq<usize>, taken: Seq<bool>, n: nat) -> Seq<usize>
    decreases n,
{
    if n == 0 {
        Seq::empty()
    } else {
        let before = picked_first(ids, taken, (n - 1) as nat);
        if taken[n - 1] {
            before.push(ids[n - 1])
        } else {
            before
        }
    }
}

/// Of `ids`, those whose offer was taken, in their order: `taken` says of each
/// id, at the same place, whether its channel took what it was offered.
pub open spec fn picked(ids: Seq<usize>, taken: Seq<bool>) -> Seq<usize> {
    picked_first(
        ids,
        taken,
        if ids.len() <= taken.len() {
            ids.len()
        } else {
            taken.len()
        },
    )
}

/// What a fan-out of `sender_id` in `room` may come to: every other member of
/// the room is offered the message once, and `delivered` holds those whose
/// channel took it.
pub open spec fn fanned_out(
    rooms: RoomsView,
    room: Seq<char>,
    sender_id: usize,
    delivered: Seq<usize>,
) -> bool {
    exists|offered: Seq<usize>, taken: Seq<bool>|
        {
            &&& lists(offered, recipients(rooms, room, sender_id))
            &&& taken.len() == offered.len()
            &&& delivered == #[trigger] picked(offered, taken)
        }
}

/// Those that are picked are among those that were offered, at places that
/// rise: so none is picked twice where none was offered twice.
pub proof fn lemma_picked_first(ids: Seq<usize>, taken: Seq<bool>, n: nat) -> (at: Seq<int>)
    requires
        n <= ids.len(),
        n <= taken.len(),
    ensures
        at.len() == picked_first(ids, taken, n).len(),
        forall|k: int|
            0 <= k < at.len() ==> 0 <= #[trigger] at[k] < n && taken[at[k]] && picked_first(
                ids,
                taken,
                n,
            )[k] == ids[at[k]],
        forall|j: int, k: int| 0 <= j < k < at.len() ==> at[j] < at[k],
        forall|i: int|
            0 <= i < n && taken[i] ==> exists|k: int| 0 <= k < at.len() && #[trigger] at[k] == i,
    decreases n,
{
    if n == 0 {
        Seq::empty()
    } else {
        let before = lemma_picked_first(ids, taken, (n - 1) as nat);
        if taken[n - 1] {
            let at = before.push(n - 1);
            assert(at[at.len() - 1] == n - 1);
            assert forall|i: int| 0 <= i < n && taken[i] implies exists|k: int|
                0 <= k < at.len() && #[trigger] at[k] == i by {
                if i < n - 1 {
                    let k = choose|k: int| 0 <= k < before.len() && #[trigger] before[k] == i;
                    assert(at[k] == i);
                }
            }
            at
        } else {
            before
        }
    }
}

/// What is delivered by a fan-out went to recipients, and to none of them
/// twice.
pub proof fn lemma_fanned_out(rooms: RoomsView, room: Seq<char>, sender_id: usize, delivered: Seq<usize>)
    requires
        fanned_out(rooms, room, sender_id, delivered),
    ensures
        delivered.no_duplicates(),
        forall|k: int|
            0 <= k < delivered.len() ==> recipients(rooms, room, sender_id).contains_key(
                #[trigger] delivered[k],
            ),
{
    let (offered, taken) = choose|offered: Seq<usize>, taken: Seq<bool>|
        {
            &&& lists(offered, recipients(rooms, room, sender_id))
            &&& taken.len() == offered.len()
            &&& delivered == #[trigger] picked(offered, taken)
        };
    let at = lemma_picked_first(offered, taken, offered.len());
    assert forall|k: int| 0 <= k < delivered.len() implies recipients(
        rooms,
        room,
        sender_id,
    ).contains_key(#[trigger] delivered[k]) by {
        assert(delivered[k] == offered[at[k]]);
        assert(offered.contains(offered[at[k]]));
    }
    assert forall|j: int, k: int| 0 <= j < delivered.len() && 0 <= k < delivered.len() && j
        != k implies delivered[j] != delivered[k] by {
        assert(at[j] != at[k]) by {
            if j < k {
                assert(at[j] < at[k]);
            } else {
                assert(at[k] < at[j]);
            }
        }
    }
}

/// The ids of a list of targets, in its order.
pub open spec fn target_ids(targets: Seq<(usize, &UserTx)>) -> Seq<usize> {
    targets.map_values(|target: (usize, &UserTx)| target.0)
}

// Rooms are kept in a list and found by comparing names: nothing is known of
// how a string hashes. The members of a room are keyed by a number, and are
// kept in a hash map.
struct Room {
    name: String,
    members: HashMap<usize, UserTx>,
}

spec fn names(rooms: Seq<Room>) -> Seq<Seq<char>> {
    rooms.map_values(|room: Room| room.name@)
}

spec fn contents(rooms: Seq<Room>) -> Seq<Members> {
    rooms.map_values(|room: Room| room.members@)
}

/// The room registry.
pub struct Rooms {
    rooms: Vec<Room>,
    // The members of every room that is not there.
    nobody: HashMap<usize, UserTx>,
}

impl View for Rooms {
    type V = RoomsView;

    closed spec fn view(&self) -> RoomsView {
        assoc(names(self.rooms@), contents(self.rooms@))
    }
}

impl Default for Rooms {
    /// A registry without rooms.
    fn default() -> (rooms: Self)
        ensures
            rooms.wf(),
            rooms@ == Map::<Seq<char>, Members>::empty(),
    {
        Rooms::new()
    }
}

impl Rooms {
    /// Whether the registry is in order inside: no name is kept twice, and no
    /// room is kept without a member.
    pub closed spec fn wf(&self) -> bool {
        &&& names(self.rooms@).no_duplicates()
        &&& forall|i: int| 0 <= i < self.rooms.len() ==> !deserted(#[trigger] self.rooms[i].members@)
        &&& deserted(self.nobody@)
    }

    /// A registry that is in order keeps no empty room.
    pub proof fn lemma_no_empty_room(&self)
        requires
            self.wf(),
        ensures
            no_empty_room(self@),
    {
        let names = names(self.rooms@);
        let contents = contents(self.rooms@);
        assert forall|room: Seq<char>| #[trigger] self@.contains_key(room) implies !deserted(
            self@[room],
        ) by {
            let i = names.index_of(room);
            lemma_assoc_index(names, contents, i);
            assert(!deserted(self.rooms[i].members@));
        }
    }

    /// A registry without rooms.
    pub fn new() -> (rooms: Self)
        ensures
            rooms.wf(),
            rooms@ == Map::<Seq<char>, Members>::empty(),
    {
        let rooms = Rooms { rooms: Vec::new(), nobody: HashMap::new() };
        proof {
            lemma_assoc_empty::<Seq<char>, Members>();
            assert(names(rooms.rooms@) =~= Seq::empty());
            assert(contents(rooms.rooms@) =~= Seq::empty());
        }
        rooms
    }

    fn position_of_room(&self, name: &String) -> (at: Option<usize>)
        ensures
            match at {
                Some(i) => i < self.rooms.len() && self.rooms[i as int].name@ == name@,
                None => !names(self.rooms@).contains(name@),
            },
    {
        let mut i: usize = 0;
        while i < self.rooms.len()
            invariant
                i <= self.rooms.len(),
                forall|k: int| 0 <= k < i ==> self.rooms[k].name@ != name@,
            decreases self.rooms.len() - i,
        {
            if self.rooms[i].name == *name {
                return Some(i);
            }
            i += 1;
        }
        None
    }

    /// Adds `user_id` to `room_name` with the handle `outbound`, creating the
    /// room if it is not there. A user who is in the room already stays in it
    /// once, with the new handle.
    pub fn join(&mut self, room_name: &str, user_id: usize, outbound: UserTx)
        requires
            old(self).wf(),
        ensures
            final(self).wf(),
            final(self)@ == joined(old(self)@, room_name@, user_id, outbound),
    {
        broadcast use vstd::std_specs::hash::group_hash_axioms;

        let name = room_name.to_owned();
        let ghost names0 = names(self.rooms@);
        let ghost contents0 = contents(self.rooms@);
        match self.position_of_room(&name) {
            Some(i) => {
                proof {
                    lemma_assoc_index(names0, contents0, i as int);
                }
                self.rooms[i].members.insert(user_id, outbound);
                proof {
                    let after = self.rooms[i as int].members@;
                    assert(after.contains_key(user_id));
                    assert(names(self.rooms@) =~= names0);
                    assert(contents(self.rooms@) =~= contents0.update(i as int, after));
                    lemma_assoc_update(names0, contents0, i as int, after);
                    assert forall|j: int| 0 <= j < self.rooms.len() implies !deserted(
                        #[trigger] self.rooms[j].members@,
                    ) by {
                        if j != i {
                            assert(self.rooms[j].members@ == old(self).rooms[j].members@);
                        }
                    }
                }
            },
            None => {
                let mut members = HashMap::new();
                members.insert(user_id, outbound);
                let ghost after = members@;
                self.rooms.push(Room { name, members });
                proof {
                    assert(after.contains_key(user_id));
                    assert(names(self.rooms@) =~= names0.push(room_name@));
                    assert(contents(self.rooms@) =~= contents0.push(after));
                    lemma_assoc_push(names0, contents0, room_name@, after);
                    assert forall|j: int| 0 <= j < self.rooms.len() implies !deserted(
                        #[trigger] self.rooms[j].members@,
                    ) by {
                        if j < old(self).rooms.len() {
                            assert(self.rooms[j].members@ == old(self).rooms[j].members@);
                        }
                    }
                }
            },
        }
    }

    /// Removes `user_id` from `room_name`, and the room with it if nobody is
    /// left. Nothing changes if the room or the user is not there.
    pub fn leave(&mut self, room_name: &str, user_id: usize)
        requires
            old(self).wf(),
        ensures
            final(self).wf(),
            final(self)@ == left(old(self)@, room_name@, user_id),
    {
        broadcast use vstd::std_specs::hash::group_hash_axioms;

        let name = room_name.to_owned();
        let ghost names0 = names(self.rooms@);
        let ghost contents0 = contents(self.rooms@);
        match self.position_of_room(&name) {
            Some(i) => {
                proof {
                    lemma_assoc_index(names0, contents0, i as int);
                }
                self.rooms[i].members.remove(&user_id);
                let ghost rest = self.rooms[i as int].members@;
                proof {
                    assert(names(self.rooms@) =~= names0);
                    assert(contents(self.rooms@) =~= contents0.update(i as int, rest));
                }
                // Cleans up room, if empty
                if self.rooms[i].members.is_empty() {
                    self.rooms.remove(i);
                    proof {
                        assert(deserted(rest)) by {
                            assert(rest.dom() =~= Set::empty());
                        }
                        assert(names(self.rooms@) =~= names0.remove(i as int));
                        assert(contents(self.rooms@) =~= contents0.remove(i as int));
                        lemma_assoc_remove(names0, contents0, i as int);
                        assert forall|j: int| 0 <= j < self.rooms.len() implies !deserted(
                            #[trigger] self.rooms[j].members@,
                        ) by {
                            let before = if j < i {
                                j
                            } else {
                                j + 1
                            };
                            assert(self.rooms[j].members@ == old(self).rooms[before].members@);
                        }
                    }
                } else {
                    proof {
                        assert(!deserted(rest)) by {
                            if deserted(rest) {
                                assert(rest.dom() =~= Set::empty());
                            }
                        }
                        lemma_assoc_update(names0, contents0, i as int, rest);
                        assert forall|j: int| 0 <= j < self.rooms.len() implies !deserted(
                            #[trigger] self.rooms[j].members@,
                        ) by {
                            if j != i {
                                assert(self.rooms[j].members@ == old(self).rooms[j].members@);
                            }
                        }
                    }
                }
            },
            None => {
                proof {
                    assert(self@.remove(room_name@) =~= self@);
                }
            },
        }
    }

    /// The members of `room_name` as they stand. A room that is not there has
    /// no members.
    pub fn members_of(&self, room_name: &str) -> (members: &HashMap<usize, UserTx>)
        requires
            self.wf(),
        ensures
            members@ == members_in(self@, room_name@),
    {
        let name = room_name.to_owned();
        match self.position_of_room(&name) {
            Some(i) => {
                proof {
                    lemma_assoc_index(names(self.rooms@), contents(self.rooms@), i as int);
                }
                &self.rooms[i].members
            },
            None => {
                proof {
                    assert(self.nobody@ =~= Map::empty());
                }
                &self.nobody
            },
        }
    }

    /// Who is to be offered a message that `sender_id` sends in `room_name`:
    /// every member of that room but the sender, each of them once and with
    /// the handle to offer it on, in no particular order.
    pub fn recipients_of<'a>(&'a self, room_name: &str, sender_id: usize) -> (targets: Vec<
        (usize, &'a UserTx),
    >)
        requires
            self.wf(),
        ensures
            forall|k: int|
                0 <= k < targets.len() ==> {
                    &&& recipients(self@, room_name@, sender_id).contains_key((#[trigger] targets[k]).0)
                    &&& recipients(self@, room_name@, sender_id)[targets[k].0] == *targets[k].1
                },
            forall|j: int, k: int|
                0 <= j < k < targets.len() ==> (#[trigger] targets[j]).0 != (#[trigger] targets[k]).0,
            forall|user_id: usize| #[trigger]
                recipients(self@, room_name@, sender_id).contains_key(user_id) ==> exists|k: int|
                    0 <= k < targets.len() && (#[trigger] targets[k]).0 == user_id,
    {
        broadcast use vstd::std_specs::hash::group_hash_axioms;

        let members = self.members_of(room_name);
        let mut targets: Vec<(usize, &'a UserTx)> = Vec::new();
        // Where in the walk each target was met, and where in `targets` each
        // member that was met has gone.
        let ghost mut met: Seq<int> = Seq::empty();
        let ghost mut slot: Seq<int> = Seq::empty();
        for (user_id, tx) in it: members.iter()
            invariant
                members@ == members_in(self@, room_name@),
                it.seq().no_duplicates(),
                forall|a: int|
                    #![trigger members@.contains_key(*it.seq()[a].0)]
                    0 <= a < it.seq().len() ==> members@.contains_key(*it.seq()[a].0)
                        && members@[*it.seq()[a].0] == *it.seq()[a].1,
                forall|user_id: usize| #[trigger]
                    members@.contains_key(user_id) ==> it.seq().contains((&user_id, &members@[user_id])),
                met.len() == targets.len(),
                slot.len() == it.index(),
                forall|k: int|
                    0 <= k < targets.len() ==> 0 <= #[trigger] met[k] < it.index() && *it.seq()[met[k]].0
                        == targets[k].0,
                forall|k: int|
                    0 <= k < targets.len() ==> {
                        &&& (#[trigger] targets[k]).0 != sender_id
                        &&& members@.contains_key(targets[k].0)
                        &&& members@[targets[k].0] == *targets[k].1
                    },
                forall|j: int, k: int|
                    0 <= j < k < targets.len() ==> (#[trigger] targets[j]).0 != (#[trigger] targets[k]).0,
                forall|a: int|
                    #![trigger slot[a]]
                    #![trigger it.seq()[a]]
                    0 <= a < it.index() && *it.seq()[a].0 != sender_id ==> 0 <= slot[a] < targets.len()
                        && targets[slot[a]].0 == *it.seq()[a].0,
            ensures
                forall|user_id: usize|
                    members@.contains_key(user_id) && user_id != sender_id ==> exists|k: int|
                        0 <= k < targets.len() && (#[trigger] targets[k]).0 == user_id,
        {
            let ghost here = it.index();
            if *user_id != sender_id {
                proof {
                    assert(members@.contains_key(*it.seq()[here].0));
                    assert forall|k: int| 0 <= k < targets.len() implies targets[k].0 != *user_id by {
                        assert(members@.contains_key(*it.seq()[met[k]].0));
                        if targets[k].0 == *user_id {
                            assert(it.seq()[met[k]] == it.seq()[here]);
                        }
                    }
                    met = met.push(here);
                    slot = slot.push(targets.len() as int);
                }
                targets.push((*user_id, tx));
            } else {
                proof {
                    slot = slot.push(-1);
                }
            }
        }
        targets
    }

    /// Offers `text` to every member of `room_name` but `sender_id`, each of
    /// them once, and returns the ids of those whose channel took it, in no
    /// particular order. A member whose channel is closed is passed over.
    pub fn fanout(&self, room_name: &str, sender_id: usize, text: &str) -> (delivered: Vec<usize>)
        requires
            self.wf(),
        ensures
            fanned_out(self@, room_name@, sender_id, delivered@),
            delivered@.no_duplicates(),
            forall|k: int|
                0 <= k < delivered.len() ==> recipients(self@, room_name@, sender_id).contains_key(
                    #[trigger] delivered[k],
                ),
    {
        let targets = self.recipients_of(room_name, sender_id);
        let mut taken: Vec<bool> = Vec::new();
        let mut k: usize = 0;
        while k < targets.len()
            invariant
                k <= targets.len(),
                taken.len() == k,
            decreases targets.len() - k,
        {
            let (_, tx) = targets[k];
            taken.push(tx.send(text_message(text)).is_ok());
            k += 1;
        }
        let delivered = delivered_ids(&targets, &taken);
        proof {
            let offered = target_ids(targets@);
            assert(lists(offered, recipients(self@, room_name@, sender_id))) by {
                assert forall|user_id: usize| offered.contains(user_id) implies recipients(
                    self@,
                    room_name@,
                    sender_id,
                ).contains_key(user_id) by {
                    let k = offered.index_of(user_id);
                    assert(targets[k].0 == user_id);
                }
                assert forall|user_id: usize| #[trigger]
                    recipients(self@, room_name@, sender_id).contains_key(
                        user_id,
                    ) implies offered.contains(user_id) by {
                    let k = choose|k: int| 0 <= k < targets.len() && (#[trigger] targets[k]).0 == user_id;
                    assert(offered[k] == user_id);
                }
                assert forall|i: int, j: int| 0 <= i < offered.len() && 0 <= j < offered.len() && i
                    != j implies offered[i] != offered[j] by {
                    if i < j {
                        assert(targets[i].0 != targets[j].0);
                    } else {
                        assert(targets[j].0 != targets[i].0);
                    }
                }
            }
            assert(delivered@ == picked(offered, taken@));
            lemma_fanned_out(self@, room_name@, sender_id, delivered@);
        }
        delivered
    }
}

/// Of `targets`, the ids of those whose offer was taken, in their order:
/// `taken` says of each target, at the same place, whether its channel took
/// what it was offered. Where one list is longer than the other, what it has
/// more is left aside.
pub fn delivered_ids(targets: &Vec<(usize, &UserTx)>, taken: &Vec<bool>) -> (delivered: Vec<usize>)
    ensures
        delivered@ == picked(target_ids(targets@), taken@),
{
    let n = if targets.len() <= taken.len() {
        targets.len()
    } else {
        taken.len()
    };
    let mut delivered: Vec<usize> = Vec::new();
    let mut k: usize = 0;
    while k < n
        invariant
            k <= n,
            n <= targets.len(),
            n <= taken.len(),
            delivered@ == picked_first(target_ids(targets@), taken@, k as nat),
        decreases n - k,
    {
        if taken[k] {
            delivered.push(targets[k].0);
        }
        k += 1;
    }
    delivered
}

} // verus!
