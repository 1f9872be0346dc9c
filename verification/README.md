# protocole_exquis

The core of a multi-player protocol game server, verified with Verus.

- `src/text.rs`: reading a line typed by a player (trimming, command word
  and argument) and the texts the server answers with.
- `src/server.rs`: the server's books of rooms and connected players:
  joining rooms under fresh member ids, recording and forgetting players,
  and who a chat line goes to.
- `src/session.rs`: one connection's session as a state machine: from a
  frame or an answer of the player table to the actions to perform.
- `src/message.rs`, `src/models.rs`: the messages and records.
- `app/`: the program around it: the HTTP and websocket server (actix), the
  MySQL player table (diesel) and JSON reading (serde).
