use protocole_exquis::message::{
    AddConnectedPlayer, DisconnectPlayer, JoinRoom, ListRooms, SendIndivMessage, SendMessage,
};
use protocole_exquis::server::{smallest_free_id, GameServer};
use std::collections::HashMap;

fn sorted(mut v: Vec<u64>) -> Vec<u64> {
    v.sort();
    v
}

#[test]
fn new_server_is_empty() {
    let s: GameServer<&str> = GameServer::new();
    assert!(s.handle_list_rooms(ListRooms).is_empty());
    assert!(s.send_chat_message("any", "hi", 1).is_empty());
    assert!(s.send_individual_message("hi", 1).is_none());
}

#[test]
fn requested_free_id_is_kept() {
    let mut s: GameServer<&str> = GameServer::new();
    assert_eq!(s.add_client_to_room("lobby", Some(7), "a"), 7);
    assert_eq!(s.add_client_to_room("lobby", Some(8), "b"), 8);
    assert_eq!(s.handle_list_rooms(ListRooms), vec!["lobby".to_string()]);
}

#[test]
fn taken_id_is_replaced_by_a_free_one() {
    let mut s: GameServer<&str> = GameServer::new();
    assert_eq!(s.add_client_to_room("lobby", Some(7), "a"), 7);
    let second = s.add_client_to_room("lobby", Some(7), "b");
    assert_ne!(second, 7);
    let members = s.take_room("lobby").unwrap();
    assert_eq!(members.len(), 2);
    assert_eq!(members[&7], "a");
    assert_eq!(members[&second], "b");
}

#[test]
fn same_id_may_be_used_in_two_rooms() {
    let mut s: GameServer<&str> = GameServer::new();
    assert_eq!(s.add_client_to_room("one", Some(3), "a"), 3);
    assert_eq!(s.add_client_to_room("two", Some(3), "b"), 3);
    let mut names = s.handle_list_rooms(ListRooms);
    names.sort();
    assert_eq!(names, vec!["one".to_string(), "two".to_string()]);
}

#[test]
fn take_room_empties_the_room_and_keeps_it_listed() {
    let mut s: GameServer<&str> = GameServer::new();
    s.add_client_to_room("lobby", Some(1), "a");
    assert!(s.take_room("nowhere").is_none());
    let members = s.take_room("lobby").unwrap();
    assert_eq!(members.len(), 1);
    assert_eq!(s.take_room("lobby").unwrap().len(), 0);
    assert_eq!(s.handle_list_rooms(ListRooms), vec!["lobby".to_string()]);
}

#[test]
fn join_room_announces_to_every_connected_player() {
    let mut s: GameServer<&str> = GameServer::new();
    s.handle_add_connected_player(AddConnectedPlayer(10, "p10"));
    s.handle_add_connected_player(AddConnectedPlayer(20, "p20"));
    let out = s.handle_join_room(JoinRoom("lobby".to_string(), Some("bob".to_string()), "c"));
    assert_eq!(out.announcement.0, "bob joined lobby");
    assert_eq!(sorted(out.recipients), vec![10, 20]);
    let anon = s.handle_join_room(JoinRoom("lobby".to_string(), None, "d"));
    assert_eq!(anon.announcement.0, "anon joined lobby");
    assert_ne!(anon.id, out.id);
}

#[test]
fn recorded_player_is_reached_and_forgotten_player_is_not() {
    let mut s: GameServer<&str> = GameServer::new();
    s.handle_add_connected_player(AddConnectedPlayer(5, "five"));
    assert_eq!(s.send_individual_message("hello", 5), Some(&"five"));
    let (client, line) = s.handle_send_indiv_message(SendIndivMessage(5, "psst".to_string())).unwrap();
    assert_eq!(*client, "five");
    assert_eq!(line.0, "psst");
    s.handle_disconnect_player(DisconnectPlayer(5));
    assert!(s.send_individual_message("hello", 5).is_none());
    assert!(s.handle_send_indiv_message(SendIndivMessage(5, "psst".to_string())).is_none());
}

#[test]
fn recording_a_player_twice_keeps_the_latest_client() {
    let mut s: GameServer<&str> = GameServer::new();
    s.handle_add_connected_player(AddConnectedPlayer(5, "old"));
    s.handle_add_connected_player(AddConnectedPlayer(5, "new"));
    assert_eq!(s.send_individual_message("x", 5), Some(&"new"));
    assert_eq!(s.send_chat_message("r", "x", 0), vec![5]);
}

#[test]
fn chat_goes_to_all_players_whatever_the_room() {
    let mut s: GameServer<&str> = GameServer::new();
    for id in [1u64, 2, 3] {
        s.handle_add_connected_player(AddConnectedPlayer(id, "p"));
    }
    let d = s.handle_send_message(SendMessage("some room".to_string(), 2, "bob: hi".to_string()));
    assert_eq!(d.message.0, "bob: hi");
    assert_eq!(sorted(d.recipients), vec![1, 2, 3]);
}

#[test]
fn smallest_free_id_skips_used_ids() {
    let mut m: HashMap<u64, ()> = HashMap::new();
    assert_eq!(smallest_free_id(&m), 0);
    m.insert(0, ());
    m.insert(1, ());
    m.insert(3, ());
    assert_eq!(smallest_free_id(&m), 2);
}

#[test]
fn joining_keeps_every_member_of_every_room() {
    let mut s: GameServer<&str> = GameServer::new();
    s.add_client_to_room("lobby", Some(1), "a");
    s.add_client_to_room("lobby", Some(2), "b");
    s.add_client_to_room("side", Some(1), "s");
    let out = s.handle_join_room(JoinRoom("lobby".to_string(), None, "c"));
    assert!(out.id != 1 && out.id != 2);
    let lobby = s.take_room("lobby").unwrap();
    assert_eq!(lobby.len(), 3);
    assert_eq!((lobby[&1], lobby[&2], lobby[&out.id]), ("a", "b", "c"));
    let side = s.take_room("side").unwrap();
    assert_eq!(side.len(), 1);
    assert_eq!(side[&1], "s");
}

#[test]
fn fresh_member_id_keeps_a_free_wanted_id_and_avoids_used_ones() {
    let mut m: HashMap<u64, ()> = HashMap::new();
    m.insert(4, ());
    assert_eq!(protocole_exquis::server::fresh_member_id(&m, Some(9)), 9);
    let other = protocole_exquis::server::fresh_member_id(&m, Some(4));
    assert!(!m.contains_key(&other));
    let drawn = protocole_exquis::server::fresh_member_id(&m, None);
    assert!(!m.contains_key(&drawn));
}
