use std::collections::HashMap;
use vstd::prelude::*;
use vstd::std_specs::iter::IteratorSpec;

use crate::message::{
    AddConnectedPlayer, ChatMessage, DisconnectPlayer, JoinRoom, ListRooms, SendIndivMessage,
    SendMessage,
};
use crate::random;
use crate::text::{join_texts, join_announcement, shown_name_of};

verus! {

broadcast use vstd::std_specs::hash::group_hash_axioms;

/// The ids of the players in `players`, each once, in the order the map
/// walks them.
pub fn player_ids<C>(players: &HashMap<u64, C>) -> (ids: Vec<u64>)
    ensures
        ids@.no_duplicates(),
        ids@.to_set() == players@.dom(),
        ids@.len() == players@.dom().len(),
{
    let ghost keys = vstd::std_specs::hash::spec_keys_iter(players).remaining();
    let mut ids: Vec<u64> = Vec::new();
    for k in it: players.keys()
        invariant
            it.seq() == keys,
            ids@ == keys.take(it.index()).unref(),
    {
        ids.push(*k);
        assert(ids@ =~= keys.take(it.index() + 1).unref());
    }
    assert(keys.take(keys.len() as int) =~= keys);
    ids
}


/// Number of fresh random draws tried for a new member id before the
/// smallest free id is taken instead.
pub const RANDOM_DRAWS: u32 = 16;

/// An id for a newcomer that `members` does not use: `wanted` where it is
/// free; otherwise random draws until one is free. After `RANDOM_DRAWS`
/// draws that all hit used ids, or where the random source fails, the
/// smallest free id.
pub fn fresh_member_id<C>(members: &HashMap<u64, C>, wanted: Option<u64>) -> (r: u64)
    ensures
        !members@.contains_key(r),
        wanted is Some && !members@.contains_key(wanted->0) ==> r == wanted->0,
{
    let mut candidate = match wanted {
        Some(k) => Some(k),
        None => random::random_id(),
    };
    let mut draws: u32 = 0;
    loop
        invariant
            draws <= RANDOM_DRAWS,
            wanted is Some && draws == 0 ==> candidate == wanted,
            wanted is Some && !members@.contains_key(wanted->0) ==> draws == 0,
        decreases RANDOM_DRAWS - draws,
    {
        match candidate {
            Some(c) => {
                if !members.contains_key(&c) {
                    return c;
                }
            },
            None => {
                return smallest_free_id(members);
            },
        }
        if draws == RANDOM_DRAWS {
            return smallest_free_id(members);
        }
        candidate = random::random_id();
        draws = draws + 1;
    }
}

/// The smallest id that `members` does not hold.
pub fn smallest_free_id<C>(members: &HashMap<u64, C>) -> (id: u64)
    ensures
        !members@.contains_key(id),
        forall|k: u64| k < id ==> members@.contains_key(k),
{
    let ghost dom = members@.dom();
    let mut k: u64 = 0;
    let ghost mut below: Set<u64> = Set::empty();
    while members.contains_key(&k)
        invariant
            dom == members@.dom(),
            dom.finite(),
            below == Set::new(|j: u64| j < k),
            below.finite(),
            below.len() == k,
            below.subset_of(dom),
        decreases dom.len() - k,
    {
        proof {
            vstd::set_lib::lemma_len_subset(below.insert(k), dom);
            assert(below.insert(k) =~= Set::new(|j: u64| j < k + 1));
        }
        assert(k < dom.len());
        assert(dom.len() == members.len());
        proof {
            below = below.insert(k);
        }
        k = k + 1;
    }
    k
}


/// What joining a room yields: the member id, and the announcement with
/// the players it goes to.
pub struct JoinOutcome {
    pub id: u64,
    pub announcement: ChatMessage,
    pub recipients: Vec<u64>,
}

/// A chat line and the players it goes to.
pub struct Delivery {
    pub message: ChatMessage,
    pub recipients: Vec<u64>,
}

/// The server's books: the rooms with their members, and the players that
/// are connected and named. `C` is how a connected client is reached.
pub struct GameServer<C> {
    rooms: Vec<(String, HashMap<u64, C>)>,
    players: HashMap<u64, C>,
}

/// Names of the rooms in `rs`, in order.
pub open spec fn names_of<C>(rs: Seq<(String, HashMap<u64, C>)>) -> Seq<Seq<char>> {
    rs.map_values(|r: (String, HashMap<u64, C>)| r.0@)
}

/// The members of each room in `rs`, by room name.
pub open spec fn rooms_of<C>(rs: Seq<(String, HashMap<u64, C>)>) -> Map<Seq<char>, Map<u64, C>> {
    Map::new(
        |n: Seq<char>| names_of(rs).contains(n),
        |n: Seq<char>| rs[names_of(rs).index_of(n)].1@,
    )
}

proof fn lemma_room_at<C>(rs: Seq<(String, HashMap<u64, C>)>, i: int)
    requires
        names_of(rs).no_duplicates(),
        0 <= i < rs.len(),
    ensures
        names_of(rs)[i] == rs[i].0@,
        rooms_of(rs).contains_key(rs[i].0@),
        rooms_of(rs)[rs[i].0@] == rs[i].1@,
{
    let n = rs[i].0@;
    assert(names_of(rs)[i] == n);
    assert(names_of(rs).contains(n));
    let j = names_of(rs).index_of(n);
    assert(names_of(rs)[j] == n);
}

proof fn lemma_replace_members<C>(
    a: Seq<(String, HashMap<u64, C>)>,
    b: Seq<(String, HashMap<u64, C>)>,
    i: int,
)
    requires
        names_of(a).no_duplicates(),
        0 <= i < a.len(),
        b.len() == a.len(),
        b[i].0@ == a[i].0@,
        forall|k: int| 0 <= k < a.len() && k != i ==> b[k] == a[k],
    ensures
        names_of(b).no_duplicates(),
        names_of(b) == names_of(a),
        rooms_of(b) == rooms_of(a).insert(a[i].0@, b[i].1@),
{
    assert(names_of(b) =~= names_of(a));
    let n = a[i].0@;
    assert forall|m: Seq<char>| #[trigger] rooms_of(b).contains_key(m) implies rooms_of(b)[m]
        == rooms_of(a).insert(n, b[i].1@)[m] by {
        let j = names_of(b).index_of(m);
        assert(names_of(b)[j] == m);
        if m == n {
            assert(names_of(b)[i] == n);
        }
    }
    assert(names_of(a)[i] == n);
    assert(rooms_of(b).dom() =~= rooms_of(a).insert(n, b[i].1@).dom());
    assert(rooms_of(b) =~= rooms_of(a).insert(n, b[i].1@));
}

proof fn lemma_push_room<C>(
    a: Seq<(String, HashMap<u64, C>)>,
    b: Seq<(String, HashMap<u64, C>)>,
    name: Seq<char>,
    members: Map<u64, C>,
)
    requires
        names_of(a).no_duplicates(),
        !rooms_of(a).contains_key(name),
        b.len() == a.len() + 1,
        forall|k: int| 0 <= k < a.len() ==> b[k] == a[k],
        b.last().0@ == name,
        b.last().1@ == members,
    ensures
        names_of(b).no_duplicates(),
        names_of(b) == names_of(a).push(name),
        rooms_of(b) == rooms_of(a).insert(name, members),
{
    assert(names_of(b) =~= names_of(a).push(name));
    let last = a.len() as int;
    assert forall|m: Seq<char>| #[trigger] rooms_of(b).contains_key(m) implies rooms_of(b)[m]
        == rooms_of(a).insert(name, members)[m] by {
        let j = names_of(b).index_of(m);
        assert(names_of(b)[j] == m);
        if m == name {
            assert(names_of(b)[last] == name);
        } else {
            assert(names_of(a)[j] == m);
            let ja = names_of(a).index_of(m);
            assert(names_of(a)[ja] == m);
        }
    }
    assert(names_of(b)[last] == name);
    assert forall|m: Seq<char>| names_of(b).contains(m) <==> (names_of(a).contains(m) || m
        == name) by {
        if names_of(a).contains(m) {
            let j = names_of(a).index_of(m);
            assert(names_of(b)[j] == m);
        }
    }
    assert(rooms_of(b).dom() =~= rooms_of(a).insert(name, members).dom());
    assert(rooms_of(b) =~= rooms_of(a).insert(name, members));
}

impl<C> GameServer<C> {
    /// Names of the rooms, in the order in which they were opened.
    pub closed spec fn room_names(&self) -> Seq<Seq<char>> {
        names_of(self.rooms@)
    }

    /// Each room's members, by room name.
    pub closed spec fn rooms(&self) -> Map<Seq<char>, Map<u64, C>> {
        rooms_of(self.rooms@)
    }

    /// The connected players, by id.
    pub closed spec fn players(&self) -> Map<u64, C> {
        self.players@
    }

    /// No two rooms share a name.
    #[verifier::type_invariant]
    spec fn wf(&self) -> bool {
        self.room_names().no_duplicates()
    }

    /// The rooms as names and members: the same as `room_names` and `rooms`.
    proof fn lemma_rooms_dom(&self)
        ensures
            self.rooms().dom() == self.room_names().to_set(),
            self.room_names().len() == self.rooms@.len(),
    {
        assert(self.rooms().dom() =~= self.room_names().to_set());
    }

    /// A server with no rooms and no players.
    pub fn new() -> (s: Self)
        ensures
            s.room_names() == Seq::<Seq<char>>::empty(),
            s.rooms() == Map::<Seq<char>, Map<u64, C>>::empty(),
            s.players() == Map::<u64, C>::empty(),
    {
        let rooms: Vec<(String, HashMap<u64, C>)> = Vec::new();
        assert(names_of(rooms@) =~= Seq::<Seq<char>>::empty());
        assert(rooms_of(rooms@) =~= Map::<Seq<char>, Map<u64, C>>::empty());
        GameServer { rooms, players: HashMap::new() }
    }

    /// Position of the room called `name` in `rooms`, if there is one.
    fn find_room(rooms: &Vec<(String, HashMap<u64, C>)>, name: &String) -> (r: Option<usize>)
        requires
            names_of(rooms@).no_duplicates(),
        ensures
            match r {
                Some(i) => i < rooms@.len() && rooms@[i as int].0@ == name@,
                None => !rooms_of(rooms@).contains_key(name@),
            },
    {
        let n = rooms.len();
        let mut i: usize = 0;
        while i < n
            invariant
                n == rooms@.len(),
                i <= n,
                forall|k: int| 0 <= k < i ==> rooms@[k].0@ != name@,
            decreases n - i,
        {
            if rooms[i].0 == *name {
                return Some(i);
            }
            i = i + 1;
        }
        assert(!names_of(rooms@).contains(name@));
        None
    }

    /// Takes the rooms out of the books, leaving none behind.
    fn take_rooms(&mut self) -> (r: Vec<(String, HashMap<u64, C>)>)
        ensures
            r@ == old(self).rooms@,
            names_of(r@).no_duplicates(),
            final(self).rooms@ == Seq::<(String, HashMap<u64, C>)>::empty(),
            final(self).players@ == old(self).players@,
    {
        proof {
            use_type_invariant(&*self);
        }
        let mut rooms: Vec<(String, HashMap<u64, C>)> = Vec::new();
        assert(names_of(rooms@) =~= Seq::<Seq<char>>::empty());
        core::mem::swap(&mut rooms, &mut self.rooms);
        rooms
    }

    /// Takes the players out of the books, leaving none behind.
    fn take_players(&mut self) -> (r: HashMap<u64, C>)
        ensures
            r@ == old(self).players@,
            final(self).rooms@ == old(self).rooms@,
            final(self).players@ == Map::<u64, C>::empty(),
    {
        proof {
            use_type_invariant(&*self);
        }
        let mut players: HashMap<u64, C> = HashMap::new();
        core::mem::swap(&mut players, &mut self.players);
        players
    }

    /// Empties the room called `room_name` and hands back the members it
    /// had; `None`, and nothing changes, where there is no such room.
    pub fn take_room(&mut self, room_name: &str) -> (r: Option<HashMap<u64, C>>)
        ensures
            final(self).players() == old(self).players(),
            final(self).room_names() == old(self).room_names(),
            match r {
                Some(m) => {
                    &&& old(self).rooms().contains_key(room_name@)
                    &&& m@ == old(self).rooms()[room_name@]
                    &&& final(self).rooms() == old(self).rooms().insert(
                        room_name@,
                        Map::empty(),
                    )
                },
                None => {
                    &&& !old(self).rooms().contains_key(room_name@)
                    &&& final(self).rooms() == old(self).rooms()
                },
            },
    {
        let name = room_name.to_owned();
        let mut rooms = self.take_rooms();
        let ghost a = rooms@;
        let r = match Self::find_room(&rooms, &name) {
            Some(i) => {
                proof {
                    lemma_room_at(a, i as int);
                }
                let mut room: HashMap<u64, C> = HashMap::new();
                core::mem::swap(&mut rooms[i].1, &mut room);
                proof {
                    lemma_replace_members(a, rooms@, i as int);
                }
                Some(room)
            },
            None => None,
        };
        self.rooms = rooms;
        r
    }

    /// Members of the room called `name` before a client joins it: none
    /// where there is no such room yet.
    pub open spec fn members_before(&self, name: Seq<char>) -> Map<u64, C> {
        if self.rooms().contains_key(name) {
            self.rooms()[name]
        } else {
            Map::empty()
        }
    }

    /// Puts `client` into the room called `room_name`, opening the room if
    /// there is none, and returns the member id it was given there: `id`
    /// where one is asked for and the room does not use it yet; otherwise a
    /// random id that the room does not use (see `fresh_member_id`).
    pub fn add_client_to_room(&mut self, room_name: &str, id: Option<u64>, client: C) -> (r: u64)
        ensures
            final(self).players() == old(self).players(),
            !old(self).members_before(room_name@).contains_key(r),
            final(self).rooms() == old(self).rooms().insert(
                room_name@,
                old(self).members_before(room_name@).insert(r, client),
            ),
            old(self).rooms().contains_key(room_name@) ==> final(self).room_names() == old(
                self,
            ).room_names(),
            !old(self).rooms().contains_key(room_name@) ==> final(self).room_names() == old(
                self,
            ).room_names().push(room_name@),
            id is Some && !old(self).members_before(room_name@).contains_key(id->0) ==> r
                == id->0,
    {
        let name = room_name.to_owned();
        let mut rooms = self.take_rooms();
        let ghost a = rooms@;
        let member_id = match Self::find_room(&rooms, &name) {
            Some(i) => {
                proof {
                    lemma_room_at(a, i as int);
                }
                let member_id = fresh_member_id(&rooms[i].1, id);
                rooms[i].1.insert(member_id, client);
                proof {
                    lemma_replace_members(a, rooms@, i as int);
                }
                member_id
            },
            None => {
                let mut room: HashMap<u64, C> = HashMap::new();
                let member_id = fresh_member_id(&room, id);
                room.insert(member_id, client);
                rooms.push((name, room));
                proof {
                    lemma_push_room(a, rooms@, room_name@, Map::empty().insert(member_id, client));
                }
                member_id
            },
        };
        self.rooms = rooms;
        member_id
    }

    /// How many players are connected.
    pub fn player_count(&self) -> (r: usize)
        ensures
            r == self.players().len(),
    {
        self.players.len()
    }

    /// Whom a chat line goes to: every connected player, each once, in the
    /// order the player table walks them. The room, the text and the sender
    /// do not narrow it.
    pub fn send_chat_message(&self, room_name: &str, msg: &str, src: u64) -> (r: Vec<u64>)
        ensures
            r@.no_duplicates(),
            r@.to_set() == self.players().dom(),
    {
        player_ids(&self.players)
    }

    /// The client a line for player `target` goes to: `None` where no such
    /// player is connected.
    pub fn send_individual_message(&self, msg: &str, target: u64) -> (r: Option<&C>)
        ensures
            r is Some <==> self.players().contains_key(target),
            r is Some ==> *r->0 == self.players()[target],
    {
        self.players.get(&target)
    }

    /// A client joins a room under a fresh id; the announcement
    /// `<name or anon> joined <room>` goes to every connected player.
    /// Returns the id, the announcement and its recipients.
    pub fn handle_join_room(&mut self, msg: JoinRoom<C>) -> (r: JoinOutcome)
        ensures
            final(self).players() == old(self).players(),
            !old(self).members_before(msg.0@).contains_key(r.id),
            final(self).rooms() == old(self).rooms().insert(
                msg.0@,
                old(self).members_before(msg.0@).insert(r.id, msg.2),
            ),
            old(self).rooms().contains_key(msg.0@) ==> final(self).room_names() == old(
                self,
            ).room_names(),
            !old(self).rooms().contains_key(msg.0@) ==> final(self).room_names() == old(
                self,
            ).room_names().push(msg.0@),
            r.announcement.0@ == join_announcement(msg.1.deep_view(), msg.0@),
            r.announcement.0@ == (match msg.1 {
                Some(n) => n@,
                None => "anon"@,
            }) + " joined "@ + msg.0@,
            r.recipients@.no_duplicates(),
            r.recipients@.to_set() == old(self).players().dom(),
    {
        let JoinRoom(room_name, client_name, client) = msg;
        let id = self.add_client_to_room(room_name.as_str(), None, client);
        let who = shown_name_of(&client_name);
        let who_joined = join_texts(who.as_str(), " joined ");
        let join_msg = join_texts(who_joined.as_str(), room_name.as_str());
        proof {
            assert(join_msg@ =~= join_announcement(client_name.deep_view(), room_name@));
        }
        let recipients = self.send_chat_message(room_name.as_str(), join_msg.as_str(), id);
        JoinOutcome { id, announcement: ChatMessage(join_msg), recipients }
    }

    /// Records a connected player; a player already known under that id is
    /// replaced.
    pub fn handle_add_connected_player(&mut self, msg: AddConnectedPlayer<C>)
        ensures
            final(self).room_names() == old(self).room_names(),
            final(self).rooms() == old(self).rooms(),
            final(self).players() == old(self).players().insert(msg.0, msg.1),
    {
        proof {
            use_type_invariant(&*self);
        }
        let AddConnectedPlayer(player_id, client) = msg;
        let mut players = self.take_players();
        players.insert(player_id, client);
        self.players = players;
    }

    /// Forgets a player.
    pub fn handle_disconnect_player(&mut self, msg: DisconnectPlayer)
        ensures
            final(self).room_names() == old(self).room_names(),
            final(self).rooms() == old(self).rooms(),
            final(self).players() == old(self).players().remove(msg.0),
    {
        proof {
            use_type_invariant(&*self);
        }
        let mut players = self.take_players();
        players.remove(&msg.0);
        self.players = players;
    }

    /// The names of the rooms, each once.
    pub fn handle_list_rooms(&self, msg: ListRooms) -> (r: Vec<String>)
        ensures
            r.deep_view() == self.room_names(),
            r.deep_view().no_duplicates(),
            r.deep_view().to_set() == self.rooms().dom(),
    {
        proof {
            use_type_invariant(self);
        }
        let n = self.rooms.len();
        let mut names: Vec<String> = Vec::new();
        let mut i: usize = 0;
        while i < n
            invariant
                n == self.rooms@.len(),
                i <= n,
                names.deep_view() == self.room_names().take(i as int),
            decreases n - i,
        {
            let ghost before = names.deep_view();
            names.push(self.rooms[i].0.clone());
            assert(names.deep_view() =~= before.push(self.rooms@[i as int].0@));
            i = i + 1;
            assert(names.deep_view() =~= self.room_names().take(i as int));
        }
        proof {
            self.lemma_rooms_dom();
            assert(self.room_names().take(n as int) =~= self.room_names());
        }
        names
    }

    /// A chat line for everyone: its text, and every connected player as
    /// recipient.
    pub fn handle_send_message(&self, msg: SendMessage) -> (r: Delivery)
        ensures
            r.message.0@ == msg.2@,
            r.recipients@.no_duplicates(),
            r.recipients@.to_set() == self.players().dom(),
    {
        let SendMessage(room_name, id, text) = msg;
        let recipients = self.send_chat_message(room_name.as_str(), text.as_str(), id);
        Delivery { message: ChatMessage(text), recipients }
    }

    /// A line for one player: the client it goes to and the text, or `None`
    /// where no such player is connected.
    pub fn handle_send_indiv_message(&self, msg: SendIndivMessage) -> (r: Option<(&C, ChatMessage)>)
        ensures
            r is Some <==> self.players().contains_key(msg.0),
            r matches Some((client, line)) ==> *client == self.players()[msg.0] && line.0@
                == msg.1@,
    {
        let SendIndivMessage(target, text) = msg;
        match self.send_individual_message(text.as_str(), target) {
            Some(client) => Some((client, ChatMessage(text))),
            None => None,
        }
    }

} // impl


impl<C> Default for GameServer<C> {
    /// A server with no rooms and no players.
    fn default() -> (s: Self)
        ensures
            s.room_names() == Seq::<Seq<char>>::empty(),
            s.rooms() == Map::<Seq<char>, Map<u64, C>>::empty(),
            s.players() == Map::<u64, C>::empty(),
    {
        GameServer::new()
    }
}

/// Once a player has been recorded, a line for it reaches the client it was
/// recorded with.
pub proof fn lemma_recorded_player_is_reached<C>(
    before: GameServer<C>,
    after: GameServer<C>,
    id: u64,
    client: C,
)
    requires
        after.players() == before.players().insert(id, client),
    ensures
        after.players().contains_key(id),
        after.players()[id] == client,
{
}

/// Once a player has been forgotten, no line for it reaches anyone.
pub proof fn lemma_forgotten_player_is_not_reached<C>(
    before: GameServer<C>,
    after: GameServer<C>,
    id: u64,
)
    requires
        after.players() == before.players().remove(id),
    ensures
        !after.players().contains_key(id),
{
}

/// Forgetting a player that was just recorded, under an id that was free,
/// gives back the players there were before; the rooms are left as they
/// were throughout.
pub proof fn lemma_forget_undoes_record<C>(
    before: GameServer<C>,
    middle: GameServer<C>,
    after: GameServer<C>,
    id: u64,
    client: C,
)
    requires
        !before.players().contains_key(id),
        middle.players() == before.players().insert(id, client),
        after.players() == middle.players().remove(id),
        middle.rooms() == before.rooms(),
        after.rooms() == middle.rooms(),
    ensures
        after.players() == before.players(),
        after.rooms() == before.rooms(),
{
    assert(after.players() =~= before.players());
}

/// Joining a room loses nobody: every room is still there with all of its
/// members, the joined room is listed, and the newcomer is in it under its
/// id, which no one else in that room had.
pub proof fn lemma_join_keeps_everyone<C>(
    before: GameServer<C>,
    after: GameServer<C>,
    room: Seq<char>,
    id: u64,
    client: C,
)
    requires
        !before.members_before(room).contains_key(id),
        after.rooms() == before.rooms().insert(room, before.members_before(room).insert(id, client)),
    ensures
        forall|n: Seq<char>| #[trigger]
            before.rooms().contains_key(n) ==> after.rooms().contains_key(n)
                && before.rooms()[n].submap_of(after.rooms()[n]),
        after.rooms().contains_key(room),
        after.rooms()[room].contains_key(id),
        after.rooms()[room][id] == client,
        forall|k: u64| #[trigger]
            after.rooms()[room].contains_key(k) && k != id ==> before.members_before(
                room,
            ).contains_key(k),
{
}

} // verus!
