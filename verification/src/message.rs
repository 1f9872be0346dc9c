use vstd::prelude::*;

verus! {

/// A line of chat text delivered to a client.
#[derive(Clone)]
pub struct ChatMessage(pub String);

/// Asks the server to put a client into a room: room name, the client's
/// player name if it has one, and how the client is reached.
#[derive(Clone)]
pub struct JoinRoom<C>(pub String, pub Option<String>, pub C);

/// Tells the server that a named player is connected: its id and how it is
/// reached.
#[derive(Clone)]
pub struct AddConnectedPlayer<C>(pub u64, pub C);

/// Tells the server that the player with this id has gone.
#[derive(Clone)]
pub struct DisconnectPlayer(pub u64);

/// Asks the server for the names of its rooms.
#[derive(Clone)]
pub struct ListRooms;

/// A chat line for everyone: room name, sender id, text.
#[derive(Clone)]
pub struct SendMessage(pub String, pub u64, pub String);

/// A line for a single player: its id and the text.
#[derive(Clone)]
pub struct SendIndivMessage(pub u64, pub String);

/// The settings of a new game.
#[derive(Clone)]
pub struct CreateGame {
    pub initiator: String,
    pub responder: String,
    pub task: String,
    pub rounds: usize,
    pub initial_knowledge_initiator: String,
    pub initial_knowledge_responder: String,
}

/// What a game message asks for.
#[derive(Clone)]
pub enum GameMessage {
    CreateGame(CreateGame),
    JoinGame,
    SendMove,
}

/// A game message with its declared type.
#[derive(Clone)]
pub struct GameMessageWrapper {
    pub msg_type: String,
    pub msg: GameMessage,
}

} // verus!
