use hangman::game::Outcome;
use hangman::render::{render_frame, ART_ROWS};
use hangman::session::{InputEvent, Session, StepOutcome};

fn word(s: &str) -> Vec<u8> {
    s.as_bytes().to_vec()
}

fn one_word_session(s: &str) -> (Session, Vec<Vec<u8>>) {
    let words = vec![word(s)];
    let session = Session::new(&words).unwrap();
    (session, words)
}

fn expect_continue(r: StepOutcome) {
    match r {
        StepOutcome::Continue => {}
        StepOutcome::Exit(m) => panic!("session exited early: {}", m),
    }
}

fn expect_exit(r: StepOutcome) -> String {
    match r {
        StepOutcome::Continue => panic!("session went on instead of exiting"),
        StepOutcome::Exit(m) => m,
    }
}

#[test]
fn scenario_quit_mid_round_spoils_the_word() {
    let (mut s, words) = one_word_session("zap");
    expect_continue(s.step(InputEvent::Char('q'), &words));
    assert_eq!(s.game.mistake_count(), 1);
    let msg = expect_exit(s.step(InputEvent::Esc, &words));
    assert_eq!(msg.as_str(), "Quit, word was: ZAP");
    assert!(msg.contains("ZAP"));
}

#[test]
fn scenario_restart_gives_a_fresh_round() {
    let (mut s, words) = one_word_session("cat");
    for c in ['x', 'c', 'a', 't'] {
        expect_continue(s.step(InputEvent::Char(c), &words));
    }
    assert_eq!(s.game.outcome(), Outcome::Won);
    assert_eq!(s.game.mistake_count(), 1);
    expect_continue(s.step(InputEvent::Enter, &words));
    assert_eq!(s.game.outcome(), Outcome::InProgress);
    assert_eq!(s.game.mistake_count(), 0);
    assert_eq!(
        s.game.render_view().guessed_display,
        b"__________________________".to_vec()
    );
    assert_eq!(s.status.as_str(), "");
}

#[test]
fn status_lines_follow_the_guess_reports() {
    let (mut s, words) = one_word_session("cat");
    s.step(InputEvent::Char('a'), &words);
    assert_eq!(s.status.as_str(), "Found: a");
    s.step(InputEvent::Char('q'), &words);
    assert_eq!(s.status.as_str(), "Not found: q");
    s.step(InputEvent::Char('a'), &words);
    assert_eq!(s.status.as_str(), "Already guessed: a");
    s.step(InputEvent::OtherKey, &words);
    assert_eq!(s.status.as_str(), "Unhandled key");
    s.step(InputEvent::NonKey, &words);
    assert_eq!(s.status.as_str(), "");
}

#[test]
fn winning_guess_sets_the_win_status() {
    let (mut s, words) = one_word_session("cat");
    for c in ['c', 'a', 't'] {
        expect_continue(s.step(InputEvent::Char(c), &words));
    }
    assert_eq!(s.status.as_str(), "You win! Word was: CAT");
    let msg = expect_exit(s.step(InputEvent::Esc, &words));
    assert_eq!(msg.as_str(), "You win! Word was: CAT");
}

#[test]
fn sixth_miss_sets_the_loss_status_and_freezes_the_round() {
    let (mut s, words) = one_word_session("dog");
    for c in ['q', 'w', 'e', 'r', 'u'] {
        expect_continue(s.step(InputEvent::Char(c), &words));
    }
    expect_continue(s.step(InputEvent::Char('y'), &words));
    assert_eq!(s.status.as_str(), "FAILED, word was: DOG");
    assert_eq!(s.game.outcome(), Outcome::Lost);
    expect_continue(s.step(InputEvent::Char('d'), &words));
    assert_eq!(s.status.as_str(), "Round is already over");
    assert_eq!(s.game.render_view().masked, b"___".to_vec());
    let msg = expect_exit(s.step(InputEvent::Esc, &words));
    assert_eq!(msg.as_str(), "FAILED, word was: DOG");
}

#[test]
fn uppercase_keys_guess_their_lowercase_letter() {
    let (mut s, words) = one_word_session("cat");
    expect_continue(s.step(InputEvent::Char('C'), &words));
    assert_eq!(s.status.as_str(), "Found: c");
    assert_eq!(s.game.render_view().masked, b"C__".to_vec());
}

#[test]
fn enter_while_playing_is_ignored_silently() {
    let (mut s, words) = one_word_session("cat");
    expect_continue(s.step(InputEvent::Char('q'), &words));
    expect_continue(s.step(InputEvent::Enter, &words));
    assert_eq!(s.game.mistake_count(), 1);
    assert_eq!(s.status.as_str(), "");
}

#[test]
fn unrecognized_characters_leave_a_notice_and_no_change() {
    let (mut s, words) = one_word_session("cat");
    expect_continue(s.step(InputEvent::Char('!'), &words));
    assert_eq!(s.status.as_str(), "Unhandled key");
    assert_eq!(s.game.mistake_count(), 0);
    assert_eq!(
        s.game.render_view().guessed_display,
        b"__________________________".to_vec()
    );
}

#[test]
fn frame_paints_twelve_items_in_layout_order() {
    let (s, _words) = one_word_session("cat");
    let items = render_frame(&s);
    assert_eq!(items.len(), 12);
    assert_eq!(ART_ROWS, 8);

    assert_eq!((items[0].col, items[0].row), (0, 0));
    assert_eq!(items[0].text.as_str(), "");

    let empty_gallows = [
        "",
        "    +---+",
        "    |   |",
        "        |",
        "        |",
        "        |",
        "        |",
        "    =========",
    ];
    for l in 0..8 {
        let it = &items[1 + l];
        assert_eq!((it.col, it.row), (0, (1 + l) as u16));
        assert!(!it.warning);
        assert_eq!(it.text.as_str(), empty_gallows[l]);
    }

    assert_eq!((items[9].col, items[9].row), (20, 4));
    assert_eq!(items[9].text.as_str(), "Word: ___");

    assert_eq!((items[10].col, items[10].row), (0, 10));
    assert_eq!(
        items[10].text.as_str(),
        "Guessed Characters: __________________________"
    );

    assert_eq!((items[11].col, items[11].row), (0, 11));
    assert_eq!(
        items[11].text.as_str(),
        "Press character to guess or Esc to give up"
    );
}

#[test]
fn final_stage_is_fully_drawn_and_flagged() {
    let (mut s, words) = one_word_session("dog");
    for c in ['q', 'w', 'e', 'r', 'u', 'y'] {
        expect_continue(s.step(InputEvent::Char(c), &words));
    }
    assert_eq!(s.game.mistake_count(), 6);
    let items = render_frame(&s);
    for l in 0..8 {
        assert!(items[1 + l].warning);
    }
    assert_eq!(items[4].text.as_str(), "    O   |");
    assert_eq!(items[5].text.as_str(), "   /|\\  |");
    assert_eq!(items[6].text.as_str(), "   / \\  |");
    assert_eq!(
        items[11].text.as_str(),
        "Press Esc to exit or Enter to start a new game"
    );
}

#[test]
fn session_on_empty_list_fails() {
    let words: Vec<Vec<u8>> = Vec::new();
    assert!(Session::new(&words).is_err());
}
