use vstd::prelude::*;

use crate::message::{GameMessage, GameMessageWrapper, SendIndivMessage, SendMessage};
use crate::random;
use crate::server::RANDOM_DRAWS;
use crate::text::{
    is_ws, lemma_join_reads_whole_room_name, lemma_name_reads_whole_name,
    chat_line, command_of, join_texts, parse_command, shown_name_of, unknown_command_reply,
    unknown_command_reply_of, Command, CommandView,
};

verus! {

/// The answer when `/join` comes without a room name.
pub open spec fn room_name_required() -> Seq<char> {
    "!!! room name is required"@
}

/// The answer when `/name` comes without a name.
pub open spec fn name_required() -> Seq<char> {
    "!!! name is required"@
}

/// The answer when the chosen name belongs to another player.
pub open spec fn name_taken_reply() -> Seq<char> {
    "{\"type\": \"name\", \"msg\": \"fail\"}"@
}

/// The answer when the chosen name has been given to this player.
pub open spec fn name_given_reply() -> Seq<char> {
    "{\"type\": \"name\", \"msg\": \"success\"}"@
}

/// The line sent to a player whose name someone else asked for.
pub open spec fn name_wanted_notice() -> Seq<char> {
    "someone tried to get your name"@
}

/// The log line for a game message that asks for no new game.
pub open spec fn other_game_message() -> Seq<char> {
    "other game message"@
}

/// The log line when a player without an id tries to chat.
pub open spec fn nameless_chat_notice() -> Seq<char> {
    "no message without a name!"@
}

/// What a session does with the player table's answer for a chosen name,
/// given the id drawn for a new player.
pub open spec fn name_lookup_actions_of(name: Seq<char>, holder: Option<u64>, drawn: Option<u64>) -> Seq<
    ActionView,
> {
    match holder {
        Some(other) => seq![
            ActionView::Reply(name_taken_reply()),
            ActionView::SendIndividual(other, name_wanted_notice()),
        ],
        None => match drawn {
            Some(id) => seq![ActionView::StorePlayer(id, name)],
            None => Seq::empty(),
        },
    }
}

/// A frame that arrives on a player's connection.
pub enum Frame {
    /// A text frame.
    Text(String),
    /// The client closes the connection.
    Close,
    /// Any other frame (binary, ping, pong, ...).
    Other,
    /// The connection failed.
    Error,
}

/// `Frame` with its text as a character sequence.
pub enum FrameView {
    Text(Seq<char>),
    Close,
    Other,
    Error,
}

impl View for Frame {
    type V = FrameView;

    open spec fn view(&self) -> FrameView {
        match self {
            Frame::Text(t) => FrameView::Text(t@),
            Frame::Close => FrameView::Close,
            Frame::Other => FrameView::Other,
            Frame::Error => FrameView::Error,
        }
    }
}

/// Work a session hands to its connection, its server and the player table.
pub enum Action {
    /// Send this text to the client.
    Reply(String),
    /// Ask the server for its rooms and send each name to the client.
    ListRooms,
    /// Ask the server to put this client into the room under the player's
    /// name; its answer goes to `on_join_reply`.
    JoinRoom(String, Option<String>),
    /// Look the name up in the player table; the answer goes to
    /// `on_name_lookup`.
    LookupName(String),
    /// Store a player with this id and name in the player table; the answer
    /// goes to `on_player_stored`.
    StorePlayer(u64, String),
    /// Tell the server that the player with this id is connected, and wait
    /// until it has taken note.
    AddConnectedPlayer(u64),
    /// Publish a line for a single player.
    SendIndividual(SendIndivMessage),
    /// Publish a chat line.
    SendChat(SendMessage),
    /// Try to read the line as a JSON game message; the result goes to
    /// `on_game_message`.
    ReadGameMessage(String),
    /// Write a line to the server's log.
    Log(String),
    /// Close the connection.
    Close,
    /// Stop the session.
    Stop,
}

/// `Action` with its texts as character sequences.
pub enum ActionView {
    Reply(Seq<char>),
    ListRooms,
    JoinRoom(Seq<char>, Option<Seq<char>>),
    LookupName(Seq<char>),
    StorePlayer(u64, Seq<char>),
    AddConnectedPlayer(u64),
    SendIndividual(u64, Seq<char>),
    SendChat(Seq<char>, u64, Seq<char>),
    ReadGameMessage(Seq<char>),
    Log(Seq<char>),
    Close,
    Stop,
}

impl View for Action {
    type V = ActionView;

    open spec fn view(&self) -> ActionView {
        match self {
            Action::Reply(t) => ActionView::Reply(t@),
            Action::ListRooms => ActionView::ListRooms,
            Action::JoinRoom(r, n) => ActionView::JoinRoom(r@, n.deep_view()),
            Action::LookupName(n) => ActionView::LookupName(n@),
            Action::StorePlayer(id, n) => ActionView::StorePlayer(*id, n@),
            Action::AddConnectedPlayer(id) => ActionView::AddConnectedPlayer(*id),
            Action::SendIndividual(m) => ActionView::SendIndividual(m.0, m.1@),
            Action::SendChat(m) => ActionView::SendChat(m.0@, m.1, m.2@),
            Action::ReadGameMessage(t) => ActionView::ReadGameMessage(t@),
            Action::Log(t) => ActionView::Log(t@),
            Action::Close => ActionView::Close,
            Action::Stop => ActionView::Stop,
        }
    }
}

/// The actions in `v`, as views.
pub open spec fn actions_view(v: Seq<Action>) -> Seq<ActionView> {
    v.map_values(|a: Action| a@)
}

/// What a session knows of its player: the id and name once the player has
/// chosen a name, and the room it was last put into.
pub struct WsSession {
    player_id: Option<u64>,
    room: String,
    name: Option<String>,
}

/// `WsSession` with its texts as character sequences.
pub struct WsSessionView {
    pub player_id: Option<u64>,
    pub room: Seq<char>,
    pub name: Option<Seq<char>>,
}

impl View for WsSession {
    type V = WsSessionView;

    closed spec fn view(&self) -> WsSessionView {
        WsSessionView {
            player_id: self.player_id,
            room: self.room@,
            name: self.name.deep_view(),
        }
    }
}

/// The chat message a session publishes for a line, if its player has an
/// id: room, sender, `<name or anon>: <line>`.
pub open spec fn chat_message_of(s: WsSessionView, line: Seq<char>) -> Option<
    (Seq<char>, u64, Seq<char>),
> {
    match s.player_id {
        Some(id) => Some((s.room, id, chat_line(s.name, line))),
        None => None,
    }
}

/// What a session does with a line it has read as `c`.
pub open spec fn command_actions(s: WsSessionView, c: CommandView) -> Seq<ActionView> {
    match c {
        CommandView::List => seq![ActionView::ListRooms],
        CommandView::Join(room) => seq![ActionView::JoinRoom(room, s.name)],
        CommandView::JoinWithoutRoom => seq![ActionView::Reply(room_name_required())],
        CommandView::Name(name) => seq![ActionView::LookupName(name)],
        CommandView::NameWithoutName => seq![ActionView::Reply(name_required())],
        CommandView::Unknown(line) => seq![ActionView::Reply(unknown_command_reply(line))],
        CommandView::Chat(line) => seq![ActionView::ReadGameMessage(line)],
    }
}

/// What a session does with a frame.
pub open spec fn frame_actions(s: WsSessionView, f: FrameView) -> Seq<ActionView> {
    match f {
        FrameView::Text(t) => command_actions(s, command_of(t)),
        FrameView::Close => seq![ActionView::Close, ActionView::Stop],
        FrameView::Other => Seq::empty(),
        FrameView::Error => seq![ActionView::Stop],
    }
}

impl WsSession {
    /// A session with the given player id, room and name.
    pub fn new(player_id: Option<u64>, room: String, name: Option<String>) -> (s: Self)
        ensures
            s@ == (WsSessionView { player_id, room: room@, name: name.deep_view() }),
    {
        WsSession { player_id, room, name }
    }

    /// The room the session was last put into.
    pub fn room(&self) -> (r: &String)
        ensures
            r@ == self@.room,
    {
        &self.room
    }

    /// The player's name, once chosen.
    pub fn name(&self) -> (r: &Option<String>)
        ensures
            r.deep_view() == self@.name,
    {
        &self.name
    }

    /// The id under which the server should learn of this player, if it
    /// has one.
    pub fn add_to_players(&self) -> (r: Option<u64>)
        ensures
            r == self@.player_id,
    {
        self.player_id
    }

    /// The request to put this client into `room_name`, under its name.
    pub fn join_room(&self, room_name: &str) -> (a: Action)
        ensures
            a@ == ActionView::JoinRoom(room_name@, self@.name),
    {
        let name = match &self.name {
            Some(n) => Some(n.clone()),
            None => None,
        };
        Action::JoinRoom(room_name.to_owned(), name)
    }

    /// The server's answer to a join request: the session is in
    /// `room_name` once the server has given it a member id.
    pub fn on_join_reply(&mut self, room_name: String, reply: Option<u64>)
        ensures
            final(self)@ == (match reply {
                Some(_) => WsSessionView { room: room_name@, ..old(self)@ },
                None => old(self)@,
            }),
    {
        if reply.is_some() {
            self.room = room_name;
        }
    }

    /// The chat message for `msg`: only a player with an id publishes.
    pub fn send_msg(&self, msg: &str) -> (r: Option<SendMessage>)
        ensures
            match (r, chat_message_of(self@, msg@)) {
                (Some(m), Some(c)) => m.0@ == c.0 && m.1 == c.1 && m.2@ == c.2 && m.2@ == (match self@.name {
                    Some(n) => n,
                    None => "anon"@,
                }) + ": "@ + msg@,
                (None, None) => true,
                _ => false,
            },
    {
        match self.player_id {
            Some(id) => {
                let who = shown_name_of(&self.name);
                let prefix = join_texts(who.as_str(), ": ");
                let content = join_texts(prefix.as_str(), msg);
                Some(SendMessage(self.room.clone(), id, content))
            },
            None => None,
        }
    }

    /// What the session does with a line it has read as `cmd`.
    fn command_actions(&self, cmd: Command) -> (r: Vec<Action>)
        ensures
            actions_view(r@) == command_actions(self@, cmd@),
    {
        let mut r: Vec<Action> = Vec::new();
        match cmd {
            Command::List => r.push(Action::ListRooms),
            Command::Join(room) => r.push(self.join_room(room.as_str())),
            Command::JoinWithoutRoom => r.push(Action::Reply("!!! room name is required".to_owned())),
            Command::Name(name) => r.push(Action::LookupName(name)),
            Command::NameWithoutName => r.push(Action::Reply("!!! name is required".to_owned())),
            Command::Unknown(line) => r.push(Action::Reply(unknown_command_reply_of(line.as_str()))),
            Command::Chat(line) => r.push(Action::ReadGameMessage(line)),
        }
        assert(actions_view(r@) =~= command_actions(self@, cmd@));
        r
    }

    /// What the session does with a frame from its connection: a text
    /// frame is read as a command; closing closes and stops; a failure
    /// stops; other frames are ignored. The session itself does not change.
    pub fn handle(&self, frame: Frame) -> (r: Vec<Action>)
        ensures
            actions_view(r@) == frame_actions(self@, frame@),
    {
        match frame {
            Frame::Text(t) => {
                let cmd = parse_command(t.as_str());
                self.command_actions(cmd)
            },
            Frame::Close => {
                let r = vec![Action::Close, Action::Stop];
                assert(actions_view(r@) =~= frame_actions(self@, frame@));
                r
            },
            Frame::Other => {
                let r: Vec<Action> = Vec::new();
                assert(actions_view(r@) =~= frame_actions(self@, frame@));
                r
            },
            Frame::Error => {
                let r = vec![Action::Stop];
                assert(actions_view(r@) =~= frame_actions(self@, frame@));
                r
            },
        }
    }

    /// What the session does with the player table's answer for a chosen
    /// name, given the id drawn for a new player (`None` where no id could
    /// be drawn). Where another player has the name, the client is told so
    /// and that player is notified; otherwise a player with the drawn id and
    /// that name is to be stored, and without an id nothing is done.
    pub fn name_lookup_actions(name: String, holder: Option<u64>, drawn: Option<u64>) -> (r: Vec<
        Action,
    >)
        ensures
            actions_view(r@) == name_lookup_actions_of(name@, holder, drawn),
    {
        match holder {
            Some(other) => {
                let r = vec![
                    Action::Reply("{\"type\": \"name\", \"msg\": \"fail\"}".to_owned()),
                    Action::SendIndividual(
                        SendIndivMessage(other, "someone tried to get your name".to_owned()),
                    ),
                ];
                assert(actions_view(r@) =~= name_lookup_actions_of(name@, holder, drawn));
                r
            },
            None => match drawn {
                Some(id) => {
                    let ghost chosen = name@;
                    let r = vec![Action::StorePlayer(id, name)];
                    assert(actions_view(r@) =~= name_lookup_actions_of(chosen, holder, drawn));
                    r
                },
                None => {
                    let r: Vec<Action> = Vec::new();
                    assert(actions_view(r@) =~= name_lookup_actions_of(name@, holder, drawn));
                    r
                },
            },
        }
    }

    /// The player table's answer for a chosen name: as
    /// `name_lookup_actions`, where the id for a new player is drawn at
    /// random, only when the name is free. Where the random source keeps
    /// failing (`RANDOM_DRAWS` times), the id 0 is used, so a free name is
    /// always stored and answered. The session itself does not change.
    pub fn on_name_lookup(&self, name: String, holder: Option<u64>) -> (r: Vec<Action>)
        ensures
            holder is Some ==> actions_view(r@) == name_lookup_actions_of(name@, holder, None),
            holder is None ==> exists|drawn: Option<u64>|
                actions_view(r@) == #[trigger] name_lookup_actions_of(name@, holder, drawn),
            holder is None ==> exists|id: u64|
                actions_view(r@) == #[trigger] seq![ActionView::StorePlayer(id, name@)],
    {
        match holder {
            Some(_) => Self::name_lookup_actions(name, holder, None),
            None => {
                let id = Self::draw_player_id();
                let r = Self::name_lookup_actions(name, holder, Some(id));
                assert(actions_view(r@) == seq![ActionView::StorePlayer(id, name@)]);
                r
            },
        }
    }

    /// An id for a new player: a random draw, retried where the random
    /// source fails; 0 where it fails `RANDOM_DRAWS` times.
    fn draw_player_id() -> u64 {
        let mut tries: u32 = 0;
        while tries < RANDOM_DRAWS
            decreases RANDOM_DRAWS - tries,
        {
            match random::random_id() {
                Some(id) => {
                    return id;
                },
                None => {},
            }
            tries = tries + 1;
        }
        0
    }

    /// The player table's answer to storing a player under `name`: where it
    /// was stored under an id, the session takes that id and the server
    /// learns of the player; either way the session takes the name and the
    /// client is told it has it.
    pub fn on_player_stored(&mut self, name: String, stored: Option<u64>) -> (r: Vec<Action>)
        ensures
            final(self)@ == (WsSessionView {
                player_id: match stored {
                    Some(id) => Some(id),
                    None => old(self)@.player_id,
                },
                name: Some(name@),
                ..old(self)@
            }),
            actions_view(r@) == (match stored {
                Some(id) => seq![
                    ActionView::AddConnectedPlayer(id),
                    ActionView::Reply(name_given_reply()),
                ],
                None => seq![ActionView::Reply(name_given_reply())],
            }),
    {
        let mut r: Vec<Action> = Vec::new();
        if let Some(id) = stored {
            self.player_id = Some(id);
            if let Some(pid) = self.add_to_players() {
                r.push(Action::AddConnectedPlayer(pid));
            }
        }
        self.name = Some(name);
        r.push(Action::Reply("{\"type\": \"name\", \"msg\": \"success\"}".to_owned()));
        assert(actions_view(r@) =~= (match stored {
            Some(id) => seq![
                ActionView::AddConnectedPlayer(id),
                ActionView::Reply(name_given_reply()),
            ],
            None => seq![ActionView::Reply(name_given_reply())],
        }));
        r
    }

    /// What the session does with a line that is no command, once it has
    /// been read as a game message (`None` where it is none): a new game is
    /// logged by its two parties, another game message as such; a line
    /// that is no game message is published as chat, or, where the player
    /// has no id yet, logged as refused.
    pub fn on_game_message(&self, line: String, game: Option<GameMessageWrapper>) -> (r: Vec<
        Action,
    >)
        ensures
            actions_view(r@) == (match game {
                Some(w) => match w.msg {
                    GameMessage::CreateGame(c) => seq![
                        ActionView::Log(c.initiator@ + ", "@ + c.responder@),
                    ],
                    _ => seq![ActionView::Log(other_game_message())],
                },
                None => match chat_message_of(self@, line@) {
                    Some(m) => seq![ActionView::SendChat(m.0, m.1, m.2)],
                    None => seq![ActionView::Log(nameless_chat_notice())],
                },
            }),
    {
        let mut r: Vec<Action> = Vec::new();
        match game {
            Some(w) => match w.msg {
                GameMessage::CreateGame(c) => {
                    let head = join_texts(c.initiator.as_str(), ", ");
                    r.push(Action::Log(join_texts(head.as_str(), c.responder.as_str())));
                },
                _ => r.push(Action::Log("other game message".to_owned())),
            },
            None => match self.send_msg(line.as_str()) {
                Some(m) => r.push(Action::SendChat(m)),
                None => r.push(Action::Log("no message without a name!".to_owned())),
            },
        }
        assert(actions_view(r@) =~= (match game {
            Some(w) => match w.msg {
                GameMessage::CreateGame(c) => seq![
                    ActionView::Log(c.initiator@ + ", "@ + c.responder@),
                ],
                _ => seq![ActionView::Log(other_game_message())],
            },
            None => match chat_message_of(self@, line@) {
                Some(m) => seq![ActionView::SendChat(m.0, m.1, m.2)],
                None => seq![ActionView::Log(nameless_chat_notice())],
            },
        }));
        r
    }

    /// The player to release when the connection ends: its id, if it has
    /// one (removed from the player table and from the server).
    pub fn stopped(&self) -> (r: Option<u64>)
        ensures
            r == self@.player_id,
    {
        self.player_id
    }
}


/// A `/join <room>` line asks the server to put the client into exactly
/// that room, under the player's name, whatever room the session is in and
/// whether or not its player has an id.
pub proof fn lemma_join_line_requests_that_room(s: WsSessionView, room: Seq<char>)
    requires
        room.len() > 0,
        !is_ws(room[0]),
        !is_ws(room.last()),
    ensures
        frame_actions(s, FrameView::Text("/join "@ + room)) == seq![
            ActionView::JoinRoom(room, s.name),
        ],
{
    lemma_join_reads_whole_room_name(room);
}

/// A `/name <name>` line looks exactly that name up, whatever the session's
/// state.
pub proof fn lemma_name_line_looks_that_name_up(s: WsSessionView, name: Seq<char>)
    requires
        name.len() > 0,
        !is_ws(name[0]),
        !is_ws(name.last()),
    ensures
        frame_actions(s, FrameView::Text("/name "@ + name)) == seq![ActionView::LookupName(name)],
{
    lemma_name_reads_whole_name(name);
}

/// A session publishes chat only once its player has an id.
pub proof fn lemma_only_players_with_an_id_chat(s: WsSessionView, line: Seq<char>)
    ensures
        chat_message_of(s, line) is Some <==> s.player_id is Some,
{
}

/// Once a name has been stored under an id, the session's chat lines go
/// out under that id, signed with that name, in the session's room.
pub proof fn lemma_stored_player_chats_under_its_name(
    before: WsSessionView,
    after: WsSessionView,
    name: Seq<char>,
    id: u64,
    line: Seq<char>,
)
    requires
        after == (WsSessionView { player_id: Some(id), name: Some(name), ..before }),
    ensures
        chat_message_of(after, line) == Some((before.room, id, name + ": "@ + line)),
{
}

} // verus!
