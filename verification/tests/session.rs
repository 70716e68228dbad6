use rordle::engine::pick_solution;
use rordle::GameState;
use rordle::HitInfo;
use rordle::InputEvent;
use rordle::Session;
use rordle::SessionStatus;

fn chars_of(s: &str) -> Vec<char> {
    s.chars().collect()
}

fn commit_word(session: &mut Session, word: &str) {
    for c in word.chars() {
        session.handle_event(InputEvent::Letter(c));
    }
    session.handle_event(InputEvent::Confirm);
}

#[test]
fn test_session_won_on_solution() {
    let engine = GameState::new(chars_of("hello"), vec![chars_of("hello")], false);
    let mut session = Session::new(engine);
    assert_eq!(session.status, SessionStatus::Playing);
    commit_word(&mut session, "hello");
    assert_eq!(session.status, SessionStatus::Won);
    assert!(session.engine.won());
}

#[test]
fn test_session_lost_after_six_valid_misses() {
    let words = vec![
        chars_of("hello"),
        chars_of("jolly"),
        chars_of("world"),
        chars_of("milli"),
        chars_of("salsa"),
        chars_of("tango"),
        chars_of("visor"),
    ];
    let engine = GameState::new(chars_of("hello"), words, false);
    let mut session = Session::new(engine);
    for miss in ["jolly", "world", "milli", "salsa", "tango", "visor"] {
        assert_eq!(session.status, SessionStatus::Playing);
        commit_word(&mut session, miss);
    }
    assert_eq!(session.status, SessionStatus::Lost);
    assert!(!session.engine.won());
    assert_eq!(session.engine.guesses.len(), 6);
}

#[test]
fn test_session_rejected_commit_costs_no_attempt() {
    let engine = GameState::new(chars_of("hello"), vec![chars_of("hello")], false);
    let mut session = Session::new(engine);
    for _ in 0..10 {
        commit_word(&mut session, "zzzzz");
    }
    assert_eq!(session.status, SessionStatus::Playing);
    assert_eq!(session.engine.guesses.len(), 0);
}

#[test]
fn test_session_abort() {
    let engine = GameState::new(chars_of("hello"), vec![chars_of("hello")], false);
    let mut session = Session::new(engine);
    session.handle_event(InputEvent::Letter('h'));
    session.handle_event(InputEvent::Abort);
    assert_eq!(session.status, SessionStatus::Aborted);
}

#[test]
fn test_session_terminal_absorbs_events() {
    let engine = GameState::new(chars_of("hello"), vec![chars_of("hello")], false);
    let mut session = Session::new(engine);
    commit_word(&mut session, "hello");
    assert_eq!(session.status, SessionStatus::Won);
    session.handle_event(InputEvent::Letter('x'));
    session.handle_event(InputEvent::Confirm);
    session.handle_event(InputEvent::Abort);
    assert_eq!(session.status, SessionStatus::Won);
    assert_eq!(session.engine.guesses.len(), 1);
    assert_eq!(session.engine.current_guess.len(), 0);
}

#[test]
fn test_row_text_rows() {
    let mut game_state = GameState::new(
        chars_of("hello"),
        vec![chars_of("hello"), chars_of("jolly")],
        false,
    );
    game_state.guess(chars_of("jolly")).unwrap();
    game_state.add_char('h');
    game_state.add_char('e');
    assert_eq!(game_state.row_text(0), chars_of("jolly"));
    assert_eq!(game_state.row_text(1), chars_of("he___"));
    assert_eq!(game_state.row_text(2), chars_of("_____"));
}

#[test]
fn test_row_text_with_umlaut() {
    let mut game_state = GameState::new(chars_of("hello"), vec![chars_of("hello")], false);
    game_state.add_char('Ü');
    assert_eq!(game_state.row_text(0), chars_of("ü____"));
}

#[test]
fn test_row_hits_rows() {
    let mut game_state = GameState::new(
        chars_of("hello"),
        vec![chars_of("hello"), chars_of("jolly")],
        false,
    );
    game_state.guess(chars_of("jolly")).unwrap();
    assert_eq!(
        game_state.row_hits(0),
        vec![
            HitInfo::Miss,
            HitInfo::Contains,
            HitInfo::Hit,
            HitInfo::Hit,
            HitInfo::Miss,
        ]
    );
    assert_eq!(game_state.row_hits(1), vec![HitInfo::Unplayed; 5]);
}

#[test]
fn test_pick_solution_uses_draw_modulo() {
    let words = vec![chars_of("aa"), chars_of("bb"), chars_of("cc")];
    assert_eq!(pick_solution(&words, 0), chars_of("aa"));
    assert_eq!(pick_solution(&words, 4), chars_of("bb"));
    assert_eq!(pick_solution(&words, 5), chars_of("cc"));
}
