use protocole_exquis::message::{CreateGame, GameMessage, GameMessageWrapper};
use protocole_exquis::session::{Action, Frame, WsSession};

fn replies(actions: &[Action]) -> Vec<String> {
    actions
        .iter()
        .filter_map(|a| match a {
            Action::Reply(t) => Some(t.clone()),
            _ => None,
        })
        .collect()
}

fn text(s: &str) -> Frame {
    Frame::Text(s.to_string())
}

#[test]
fn frames_other_than_text() {
    let s = WsSession::new(None, String::new(), None);
    assert!(matches!(s.handle(Frame::Close).as_slice(), [Action::Close, Action::Stop]));
    assert!(matches!(s.handle(Frame::Error).as_slice(), [Action::Stop]));
    assert!(s.handle(Frame::Other).is_empty());
}

#[test]
fn commands_become_actions() {
    let s = WsSession::new(None, String::new(), Some("bob".to_string()));
    assert!(matches!(s.handle(text(" /list ")).as_slice(), [Action::ListRooms]));
    match s.handle(text("/join lobby")).as_slice() {
        [Action::JoinRoom(r, n)] => {
            assert_eq!(r, "lobby");
            assert_eq!(n.as_deref(), Some("bob"));
        },
        _ => panic!("expected a join request"),
    }
    match s.handle(text("/name alice")).as_slice() {
        [Action::LookupName(n)] => assert_eq!(n, "alice"),
        _ => panic!("expected a name lookup"),
    }
    match s.handle(text("hello")).as_slice() {
        [Action::ReadGameMessage(t)] => assert_eq!(t, "hello"),
        _ => panic!("expected a game message read"),
    }
}

#[test]
fn missing_arguments_and_unknown_commands_are_answered() {
    let s = WsSession::new(None, String::new(), None);
    assert_eq!(replies(&s.handle(text("/join"))), vec!["!!! room name is required"]);
    assert_eq!(replies(&s.handle(text("/name"))), vec!["!!! name is required"]);
    assert_eq!(replies(&s.handle(text("/nope x"))), vec!["!!! unknown command: \"/nope x\""]);
}

#[test]
fn taken_name_is_refused_and_its_holder_told() {
    let s = WsSession::new(None, String::new(), None);
    let actions = s.on_name_lookup("alice".to_string(), Some(42));
    assert_eq!(replies(&actions), vec!["{\"type\": \"name\", \"msg\": \"fail\"}"]);
    match &actions[1] {
        Action::SendIndividual(m) => {
            assert_eq!(m.0, 42);
            assert_eq!(m.1, "someone tried to get your name");
        },
        _ => panic!("expected a notice"),
    }
}

#[test]
fn free_name_is_stored_under_some_id() {
    let s = WsSession::new(None, String::new(), None);
    match s.on_name_lookup("alice".to_string(), None).as_slice() {
        [Action::StorePlayer(_, n)] => assert_eq!(n, "alice"),
        _ => panic!("expected a store request"),
    }
}

#[test]
fn stored_player_joins_the_server_and_chats_under_its_name() {
    let mut s = WsSession::new(None, "lobby".to_string(), None);
    assert!(s.send_msg("hi").is_none());
    let actions = s.on_player_stored("alice".to_string(), Some(9));
    assert!(matches!(actions[0], Action::AddConnectedPlayer(9)));
    assert_eq!(replies(&actions), vec!["{\"type\": \"name\", \"msg\": \"success\"}"]);
    assert_eq!(s.add_to_players(), Some(9));
    assert_eq!(s.stopped(), Some(9));
    assert_eq!(s.name().as_deref(), Some("alice"));
    let m = s.send_msg("hi").unwrap();
    assert_eq!(m.0, "lobby");
    assert_eq!(m.1, 9);
    assert_eq!(m.2, "alice: hi");
}

#[test]
fn name_is_taken_even_when_storing_fails() {
    let mut s = WsSession::new(None, String::new(), None);
    let actions = s.on_player_stored("alice".to_string(), None);
    assert_eq!(actions.len(), 1);
    assert_eq!(replies(&actions), vec!["{\"type\": \"name\", \"msg\": \"success\"}"]);
    assert_eq!(s.add_to_players(), None);
    assert_eq!(s.name().as_deref(), Some("alice"));
    assert!(s.send_msg("hi").is_none());
}

#[test]
fn room_changes_only_when_the_server_accepts() {
    let mut s = WsSession::new(Some(1), "a".to_string(), None);
    s.on_join_reply("b".to_string(), None);
    assert_eq!(s.room(), "a");
    s.on_join_reply("b".to_string(), Some(3));
    assert_eq!(s.room(), "b");
    assert_eq!(s.send_msg("yo").unwrap().2, "anon: yo");
}

#[test]
fn game_messages_are_logged_and_other_lines_chatted() {
    let s = WsSession::new(Some(4), "lobby".to_string(), Some("eve".to_string()));
    let create = GameMessageWrapper {
        msg_type: "create".to_string(),
        msg: GameMessage::CreateGame(CreateGame {
            initiator: "Alice".to_string(),
            responder: "Bob".to_string(),
            task: "key exchange".to_string(),
            rounds: 3,
            initial_knowledge_initiator: "a".to_string(),
            initial_knowledge_responder: "b".to_string(),
        }),
    };
    match s.on_game_message("{...}".to_string(), Some(create)).as_slice() {
        [Action::Log(t)] => assert_eq!(t, "Alice, Bob"),
        _ => panic!("expected a log line"),
    }
    let join = GameMessageWrapper { msg_type: "join".to_string(), msg: GameMessage::JoinGame };
    match s.on_game_message("{...}".to_string(), Some(join)).as_slice() {
        [Action::Log(t)] => assert_eq!(t, "other game message"),
        _ => panic!("expected a log line"),
    }
    match s.on_game_message("hello all".to_string(), None).as_slice() {
        [Action::SendChat(m)] => {
            assert_eq!(m.0, "lobby");
            assert_eq!(m.1, 4);
            assert_eq!(m.2, "eve: hello all");
        },
        _ => panic!("expected a chat line"),
    }
    let nameless = WsSession::new(None, String::new(), None);
    match nameless.on_game_message("hello".to_string(), None).as_slice() {
        [Action::Log(t)] => assert_eq!(t, "no message without a name!"),
        _ => panic!("expected the refusal to be logged"),
    }
}

#[test]
fn name_lookup_stores_the_drawn_id() {
    match WsSession::name_lookup_actions("alice".to_string(), None, Some(77)).as_slice() {
        [Action::StorePlayer(id, n)] => {
            assert_eq!(*id, 77);
            assert_eq!(n, "alice");
        },
        _ => panic!("expected a store request"),
    }
    assert!(WsSession::name_lookup_actions("alice".to_string(), None, None).is_empty());
    let taken = WsSession::name_lookup_actions("alice".to_string(), Some(3), Some(77));
    assert_eq!(replies(&taken), vec!["{\"type\": \"name\", \"msg\": \"fail\"}"]);
}
