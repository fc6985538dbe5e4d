use robochess::{
    parse_command, replies_after_fen, replies_after_move, set_message, state_tag, Color, Reply,
    SessionCommand, StateTag,
};

const START_FEN: &str = "rnbqkbnr/pppppppp/8/8/8/8/PPPPPPPP/RNBQKBNR w KQkq - 0 1";

#[test]
fn illegal_move_resyncs_client() {
    // `e2e5` is a move message; the rules engine rejects it
    assert!(matches!(parse_command("e2e5"), SessionCommand::Move));
    let replies = replies_after_move(false);
    assert_eq!(replies, vec![Reply::SetPosition, Reply::Tag]);
    assert_eq!(set_message(START_FEN), format!("!set {}", START_FEN));
    assert_eq!(state_tag(false, false, Color::White).text(), "!white");
}

#[test]
fn legal_move_replies_with_tag_only() {
    assert_eq!(replies_after_move(true), vec![Reply::Tag]);
}

#[test]
fn commands_are_sorted() {
    assert!(matches!(parse_command("!calibrate"), SessionCommand::Calibrate));
    assert!(matches!(parse_command("!calibrated"), SessionCommand::Unknown));
    assert!(matches!(parse_command("!reset"), SessionCommand::Unknown));
    assert!(matches!(parse_command(""), SessionCommand::Move));
    match parse_command("!fen 8/8/8/8/8/8/8/K6k w - - 0 1") {
        SessionCommand::Fen(f) => assert_eq!(f, "8/8/8/8/8/8/8/K6k w - - 0 1"),
        other => panic!("unexpected {:?}", other),
    }
    match parse_command("!fen") {
        SessionCommand::Fen(f) => assert_eq!(f, ""),
        other => panic!("unexpected {:?}", other),
    }
    assert_eq!(replies_after_fen(), vec![Reply::SetPosition, Reply::Tag]);
}

#[test]
fn state_tags() {
    assert_eq!(state_tag(true, true, Color::White), StateTag::Checkmate);
    assert_eq!(state_tag(false, true, Color::Black), StateTag::Draw);
    assert_eq!(state_tag(false, false, Color::Black).text(), "!black");
    assert_eq!(StateTag::Checkmate.text(), "!checkmate");
    assert_eq!(StateTag::Draw.text(), "!draw");
}
