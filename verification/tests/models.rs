use protocole_exquis::models::{naive_from_unix, utc_now, Game, GamePlayer, MyNaiveDateTime, Move, Protocol};

#[test]
fn default_records_are_blank() {
    let p = Protocol::default();
    assert_eq!((p.game_id, p.protocol_number), (0, 0));
    assert!(p.initiator_knowledge.is_empty() && p.responder_knowledge.is_empty());
    let m = Move::default();
    assert_eq!((m.game_id, m.protocol_number, m.move_number, m.player_id), (0, 0, 0, 0));
    assert!(m.protocol_message.is_empty() && m.new_knowledge.is_empty());
    let gp = GamePlayer::default();
    assert_eq!((gp.game_id, gp.player_id, gp.position), (0, 0, 0));
}

#[test]
fn default_game_is_unstarted() {
    let g = Game::new(MyNaiveDateTime::now().unwrap());
    assert!(g.finished_at.is_none());
    assert!(!g.started && !g.finished);
    assert_eq!((g.id, g.round, g.rounds, g.creator_id), (0, 0, 0, 0));
    assert!(g.joining_code.is_empty() && g.task.is_empty());
}

#[test]
fn new_player_has_no_token() {
    let seen = utc_now().unwrap();
    let p = protocole_exquis::models::Player::new(12, "zoe".to_string(), seen);
    assert_eq!(p.lastseen_at, seen);
    assert_eq!(p.id, 12);
    assert_eq!(p.name, "zoe");
    assert!(p.token.is_empty());
}

#[test]
fn clock_reads_as_the_current_time() {
    let before = chrono::Utc::now().naive_utc();
    let now = utc_now().unwrap();
    let after = chrono::Utc::now().naive_utc();
    assert!(before <= now && now <= after);
}

#[test]
fn unix_timestamps_read_as_utc_times() {
    let t = naive_from_unix(86_400 + 3_600, 5).unwrap();
    assert_eq!(t.to_string(), "1970-01-02 01:00:00.000000005");
    assert!(naive_from_unix(u64::MAX, 0).is_none());
    assert!(naive_from_unix(0, 2_000_000_000).is_none());
    let (secs, nanos) = protocole_exquis::models::unix_time().unwrap();
    assert!(secs > 1_600_000_000 && nanos < 1_000_000_000);
}

#[test]
fn now_is_a_recent_time() {
    let now = MyNaiveDateTime::now().unwrap();
    assert!(now.0 >= chrono::NaiveDate::from_ymd_opt(2020, 1, 1).unwrap().and_hms_opt(0, 0, 0).unwrap());
}
