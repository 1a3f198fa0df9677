use hangman::game::{GameError, GameState, GuessResult, Outcome, MAX_STAGES};
use hangman::letters::underscore_lowercase;

fn word(s: &str) -> Vec<u8> {
    s.as_bytes().to_vec()
}

#[test]
fn scenario_word_cat_is_won_in_order() {
    let w = word("cat");
    let mut g = GameState::from_word(&w);

    let r = g.guess(b'c');
    assert_eq!(r, GuessResult::Hit { letter: b'c', won: false });
    assert_eq!(g.render_view().masked, b"C__".to_vec());

    let r = g.guess(b'x');
    assert_eq!(r, GuessResult::Miss { letter: b'x', lost: false });
    assert_eq!(g.mistake_count(), 1);

    let r = g.guess(b'a');
    assert_eq!(r, GuessResult::Hit { letter: b'a', won: false });
    assert_eq!(g.render_view().masked, b"CA_".to_vec());

    let r = g.guess(b't');
    assert_eq!(r, GuessResult::Hit { letter: b't', won: true });
    assert_eq!(g.outcome(), Outcome::Won);
    assert_eq!(g.render_view().masked, b"CAT".to_vec());
}

#[test]
fn scenario_word_dog_is_lost_after_six_misses() {
    let w = word("dog");
    let mut g = GameState::from_word(&w);
    let misses = [b'q', b'w', b'e', b'r', b'u', b'y'];
    for (k, &m) in misses.iter().enumerate() {
        let last = k == misses.len() - 1;
        let r = g.guess(m);
        assert_eq!(r, GuessResult::Miss { letter: m, lost: last });
    }
    assert_eq!(MAX_STAGES, 7);
    assert_eq!(g.mistake_count(), 6);
    assert_eq!(g.outcome(), Outcome::Lost);
    assert_eq!(g.guess(b'd'), GuessResult::RoundAlreadyOver);
    assert_eq!(g.mistake_count(), 6);
}

#[test]
fn miss_adds_one_mistake_and_reveals_nothing() {
    let w = word("dodo");
    let mut g = GameState::from_word(&w);
    let before = g.render_view();
    let r = g.guess(b'z');
    assert_eq!(r, GuessResult::Miss { letter: b'z', lost: false });
    let after = g.render_view();
    assert_eq!(after.mistakes, before.mistakes + 1);
    assert_eq!(after.masked, before.masked);
}

#[test]
fn hit_reveals_every_occurrence_and_keeps_mistakes() {
    let w = word("dodo");
    let mut g = GameState::from_word(&w);
    let r = g.guess(b'o');
    assert_eq!(r, GuessResult::Hit { letter: b'o', won: false });
    let v = g.render_view();
    assert_eq!(v.masked, b"_O_O".to_vec());
    assert_eq!(v.mistakes, 0);
}

#[test]
fn repeated_guess_is_rejected_and_changes_nothing() {
    let w = word("cat");
    let mut g = GameState::from_word(&w);
    assert_eq!(g.guess(b'a'), GuessResult::Hit { letter: b'a', won: false });
    let before = g.render_view();
    let r = g.guess(b'a');
    assert_eq!(r, GuessResult::AlreadyGuessed { letter: b'a' });
    let after = g.render_view();
    assert_eq!(after.masked, before.masked);
    assert_eq!(after.guessed_display, before.guessed_display);
    assert_eq!(after.mistakes, before.mistakes);
    assert_eq!(after.outcome, before.outcome);
}

#[test]
fn uppercase_input_counts_as_its_lowercase_letter() {
    let w = word("cat");
    let mut g = GameState::from_word(&w);
    assert_eq!(g.guess(b'C'), GuessResult::Hit { letter: b'c', won: false });
    assert_eq!(g.render_view().masked, b"C__".to_vec());
}

#[test]
fn byte_outside_the_alphabet_is_invalid() {
    let w = word("cat");
    let mut g = GameState::from_word(&w);
    assert_eq!(g.guess(b'1'), GuessResult::InvalidLetter);
    assert_eq!(g.guess(b' '), GuessResult::InvalidLetter);
    assert_eq!(g.mistake_count(), 0);
}

#[test]
fn mixed_case_word_is_normalized() {
    let w = word("CaT");
    let mut g = GameState::from_word(&w);
    assert_eq!(g.render_view().masked, b"___".to_vec());
    assert_eq!(g.guess(b't'), GuessResult::Hit { letter: b't', won: false });
    assert_eq!(g.render_view().masked, b"__T".to_vec());
    assert_eq!(g.upper_word(), b"CAT".to_vec());
}

#[test]
fn empty_word_list_cannot_start_a_round() {
    let words: Vec<Vec<u8>> = Vec::new();
    match GameState::new_round(&words) {
        Err(GameError::EmptyWordList) => {}
        Ok(_) => panic!("a round started without any word"),
    }
}

#[test]
fn new_round_picks_a_word_of_the_list() {
    let words = vec![word("ab"), word("xyz")];
    for _ in 0..20 {
        let g = GameState::new_round(&words).unwrap();
        let u = g.upper_word();
        assert!(u == b"AB".to_vec() || u == b"XYZ".to_vec());
        assert_eq!(g.mistake_count(), 0);
    }
}

#[test]
fn guessed_listing_tracks_distinct_letters() {
    let w = word("cat");
    let mut g = GameState::from_word(&w);
    assert_eq!(
        g.render_view().guessed_display,
        b"__________________________".to_vec()
    );
    g.guess(b'a');
    g.guess(b'z');
    assert_eq!(
        g.render_view().guessed_display,
        b"A________________________Z".to_vec()
    );
}

#[test]
fn any_non_repeating_strategy_ends_within_the_alphabet() {
    let w = word("abc");
    let mut g = GameState::from_word(&w);
    let mut effective = 0;
    for l in b'a'..=b'z' {
        match g.guess(l) {
            GuessResult::Hit { .. } | GuessResult::Miss { .. } => effective += 1,
            GuessResult::AlreadyGuessed { .. } | GuessResult::RoundAlreadyOver => {}
            GuessResult::InvalidLetter => panic!("a letter was rejected"),
        }
    }
    assert!(effective <= 26);
    assert_ne!(g.outcome(), Outcome::InProgress);
}

#[test]
fn underscore_lowercase_masks_all_but_uppercase() {
    assert_eq!(underscore_lowercase(b'A'), b'A');
    assert_eq!(underscore_lowercase(b'Z'), b'Z');
    assert_eq!(underscore_lowercase(b'a'), b'_');
    assert_eq!(underscore_lowercase(b'z'), b'_');
    assert_eq!(underscore_lowercase(b'_'), b'_');
    assert_eq!(underscore_lowercase(b'7'), b'_');
}
