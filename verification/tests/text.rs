use protocole_exquis::text::{join_texts, parse_command, shown_name_of, trim, unknown_command_reply_of, Command};

fn join_of(c: Command) -> Option<String> {
    match c {
        Command::Join(r) => Some(r),
        _ => None,
    }
}

#[test]
fn trim_removes_unicode_whitespace_on_both_sides() {
    assert_eq!(trim("  \t hello world \n\u{3000}"), "hello world");
    assert_eq!(trim("\u{00A0}x\u{2028}"), "x");
    assert_eq!(trim(""), "");
    assert_eq!(trim(" \t\r\n "), "");
    assert_eq!(trim("a b"), "a b");
}

#[test]
fn trim_is_idempotent_on_examples() {
    for s in ["  a  ", "\u{2003}b c\u{205F}", "", "   ", "x"] {
        let once = trim(s);
        assert_eq!(trim(once), once);
        assert_eq!(once, s.trim());
    }
}

#[test]
fn list_command_ignores_its_argument() {
    assert!(matches!(parse_command("/list"), Command::List));
    assert!(matches!(parse_command("  /list rooms please "), Command::List));
}

#[test]
fn join_command_takes_everything_after_the_first_space() {
    assert_eq!(join_of(parse_command("/join lobby")), Some("lobby".to_string()));
    assert_eq!(join_of(parse_command(" /join big room ")), Some("big room".to_string()));
    assert_eq!(join_of(parse_command("/join  x")), Some(" x".to_string()));
    assert!(matches!(parse_command("/join"), Command::JoinWithoutRoom));
    assert!(matches!(parse_command("/join   "), Command::JoinWithoutRoom));
}

#[test]
fn name_command_reads_the_name() {
    match parse_command("/name alice") {
        Command::Name(n) => assert_eq!(n, "alice"),
        _ => panic!("expected a name"),
    }
    assert!(matches!(parse_command("/name"), Command::NameWithoutName));
}

#[test]
fn unknown_command_keeps_the_trimmed_line() {
    match parse_command("  /dance now ") {
        Command::Unknown(t) => assert_eq!(t, "/dance now"),
        _ => panic!("expected an unknown command"),
    }
    match parse_command("/lists") {
        Command::Unknown(t) => assert_eq!(t, "/lists"),
        _ => panic!("expected an unknown command"),
    }
    match parse_command("/name\tbob") {
        Command::Unknown(t) => assert_eq!(t, "/name\tbob"),
        _ => panic!("a tab does not separate the argument"),
    }
}

#[test]
fn plain_text_is_chat() {
    match parse_command("  hello there  ") {
        Command::Chat(t) => assert_eq!(t, "hello there"),
        _ => panic!("expected chat"),
    }
    match parse_command("hi /list") {
        Command::Chat(t) => assert_eq!(t, "hi /list"),
        _ => panic!("expected chat"),
    }
    match parse_command("   ") {
        Command::Chat(t) => assert_eq!(t, ""),
        _ => panic!("expected chat"),
    }
}

#[test]
fn unknown_command_reply_quotes_the_line() {
    assert_eq!(unknown_command_reply_of("/dance"), "!!! unknown command: \"/dance\"");
    assert_eq!(unknown_command_reply_of("/a\"b"), "!!! unknown command: \"/a\\\"b\"");
}

#[test]
fn names_show_as_anon_without_one() {
    assert_eq!(shown_name_of(&None), "anon");
    assert_eq!(shown_name_of(&Some("bob".to_string())), "bob");
    assert_eq!(join_texts("ab", "cd"), "abcd");
}
