//! The session loop's decisions: classify one input event into a command,
//! apply it to the round, and say whether the loop goes on or exits with a
//! summary message. The surrounding process only reads events, draws frames
//! and performs the exit.

use vstd::prelude::*;
use vstd::pervasive::unreached;
use crate::game::{GameError, GameModel, GameState, GuessResult, Outcome};
use crate::letters::{
    all_ascii, ascii_to_string, chars_of_bytes, is_letter, is_lower_letter, upper_seq, CASE_GAP,
    LOWER_A, LOWER_Z, UPPER_A, UPPER_Z,
};

verus! {

/// One input event, already stripped of everything terminal-specific: a
/// character key, the quit key, the confirm key, any other key, or a
/// non-key event such as a mouse move or a resize.
#[derive(Clone, Copy, Debug)]
pub enum InputEvent {
    Char(char),
    Esc,
    Enter,
    OtherKey,
    NonKey,
}

/// What an event means: guess a letter (lowercased), quit, confirm (start
/// the next round), an unrecognized key, or nothing at all.
#[derive(Clone, Copy, Debug)]
pub enum Command {
    Letter(u8),
    Quit,
    Confirm,
    Other,
    NoOp,
}

/// Classification of events into commands: a Latin letter of either case
/// guesses its lowercase form, Esc quits, Enter confirms, any other key is
/// unrecognized, and non-key events are no-ops.
pub open spec fn spec_classify(ev: InputEvent) -> Command {
    match ev {
        InputEvent::Char(c) => {
            let u = c as u32;
            if LOWER_A as u32 <= u && u <= LOWER_Z as u32 {
                Command::Letter(u as u8)
            } else if UPPER_A as u32 <= u && u <= UPPER_Z as u32 {
                Command::Letter((u + CASE_GAP as u32) as u8)
            } else {
                Command::Other
            }
        },
        InputEvent::Esc => Command::Quit,
        InputEvent::Enter => Command::Confirm,
        InputEvent::OtherKey => Command::Other,
        InputEvent::NonKey => Command::NoOp,
    }
}

pub fn classify(ev: InputEvent) -> (r: Command)
    ensures
        r == spec_classify(ev),
{
    match ev {
        InputEvent::Char(c) => {
            let u = c as u32;
            if LOWER_A as u32 <= u && u <= LOWER_Z as u32 {
                Command::Letter(u as u8)
            } else if UPPER_A as u32 <= u && u <= UPPER_Z as u32 {
                Command::Letter((u + CASE_GAP as u32) as u8)
            } else {
                Command::Other
            }
        },
        InputEvent::Esc => Command::Quit,
        InputEvent::Enter => Command::Confirm,
        InputEvent::OtherKey => Command::Other,
        InputEvent::NonKey => Command::NoOp,
    }
}

/// The secret word in uppercase, as characters: the spoiler every summary
/// message ends with.
pub open spec fn spec_spoiler(m: GameModel) -> Seq<char> {
    chars_of_bytes(upper_seq(m.word))
}

/// The summary the session exits with: the win or loss message once the
/// round is over, the quit-with-spoiler message while it is still running.
pub open spec fn spec_exit_message(m: GameModel) -> Seq<char> {
    if m.is_won() {
        "You win! Word was: "@ + spec_spoiler(m)
    } else if m.is_lost() {
        "FAILED, word was: "@ + spec_spoiler(m)
    } else {
        "Quit, word was: "@ + spec_spoiler(m)
    }
}

/// The transient status line shown after guessing the letter `l` in the
/// round `m`, one text per `guess_result` case.
pub open spec fn spec_status_for(m: GameModel, l: u8) -> Seq<char> {
    match m.guess_result(l) {
        GuessResult::RoundAlreadyOver => "Round is already over"@,
        GuessResult::AlreadyGuessed { letter } => "Already guessed: "@ + seq![letter as char],
        GuessResult::Hit { letter, won } => if won {
            "You win! Word was: "@ + spec_spoiler(m)
        } else {
            "Found: "@ + seq![letter as char]
        },
        GuessResult::Miss { letter, lost } => if lost {
            "FAILED, word was: "@ + spec_spoiler(m)
        } else {
            "Not found: "@ + seq![letter as char]
        },
        GuessResult::InvalidLetter => "Invalid letter"@,
    }
}

/// What one processed event tells the surrounding loop: keep going (redraw
/// and wait), or exit with the summary message.
#[derive(Debug)]
pub enum StepOutcome {
    Continue,
    Exit(String),
}

/// A running session: the current round and the transient status line for
/// the next frame.
pub struct Session {
    pub game: GameState,
    pub status: String,
}

/// The string of one ASCII byte.
fn letter_string(l: u8) -> (r: String)
    requires
        l < 128,
    ensures
        r@ == seq![l as char],
{
    let mut v: Vec<u8> = Vec::new();
    v.push(l);
    let r = ascii_to_string(v);
    proof {
        assert(chars_of_bytes(seq![l]) =~= seq![l as char]);
    }
    r
}

/// The secret word of the round, uppercase, as a string.
fn spoiler_string(game: &GameState) -> (r: String)
    requires
        game@.wf(),
    ensures
        r@ == spec_spoiler(game@),
{
    let u = game.upper_word();
    proof {
        assert(all_ascii(u@));
    }
    ascii_to_string(u)
}

impl Session {
    /// Invariant: the round underneath is well formed.
    pub open spec fn wf(self) -> bool {
        self.game@.wf()
    }

    /// Start a session on a word picked at random from the list. Fails, with
    /// `EmptyWordList`, exactly when the list is empty.
    pub fn new(words: &Vec<Vec<u8>>) -> (r: Result<Session, GameError>)
        requires
            forall|i: int| 0 <= i < words@.len() ==> (#[trigger] words@[i])@.len() >= 1,
            forall|i: int, j: int|
                0 <= i < words@.len() && 0 <= j < words@[i]@.len() ==> is_letter(
                    #[trigger] words@[i]@[j],
                ),
        ensures
            words@.len() == 0 ==> (r matches Err(e) && e == GameError::EmptyWordList),
            words@.len() > 0 ==> (r matches Ok(s) && s.wf() && s.status@ == Seq::<char>::empty()
                && (exists|i: int|
                0 <= i < words@.len() && s.game@ == crate::game::fresh_model(
                    crate::letters::lower_seq(#[trigger] words@[i]@),
                ))),
    {
        let game = match GameState::new_round(words) {
            Ok(g) => g,
            Err(e) => { return Err(e) },
        };
        Ok(Session { game, status: String::new() })
    }

    /// The summary for leaving the session now.
    pub fn exit_message(&self) -> (r: String)
        requires
            self.wf(),
        ensures
            r@ == spec_exit_message(self.game@),
    {
        let sp = spoiler_string(&self.game);
        let oc = self.game.outcome();
        if oc == Outcome::Won {
            String::from_str("You win! Word was: ").concat(sp.as_str())
        } else if oc == Outcome::Lost {
            String::from_str("FAILED, word was: ").concat(sp.as_str())
        } else {
            String::from_str("Quit, word was: ").concat(sp.as_str())
        }
    }

    /// Process one event. A letter is guessed and its report becomes the
    /// status line; quit exits with the summary; confirm starts a fresh
    /// round, but only once the round is over; an unrecognized key leaves a
    /// notice; a non-key event does nothing. Every path clears or replaces
    /// the previous status line, so a message shows for exactly one frame.
    pub fn step(&mut self, ev: InputEvent, words: &Vec<Vec<u8>>) -> (r: StepOutcome)
        requires
            old(self).wf(),
            words@.len() > 0,
            forall|i: int| 0 <= i < words@.len() ==> (#[trigger] words@[i])@.len() >= 1,
            forall|i: int, j: int|
                0 <= i < words@.len() && 0 <= j < words@[i]@.len() ==> is_letter(
                    #[trigger] words@[i]@[j],
                ),
        ensures
            final(self).wf(),
            spec_classify(ev) is Quit ==> (r matches StepOutcome::Exit(m) && m@
                == spec_exit_message(old(self).game@) && *final(self) == *old(self)),
            spec_classify(ev) matches Command::Letter(l) ==> (r is Continue && final(self).game@
                == old(self).game@.guess_next(l) && final(self).status@ == spec_status_for(
                old(self).game@,
                l,
            )),
            spec_classify(ev) is Confirm && old(self).game@.outcome() == Outcome::InProgress ==> (
            r is Continue && final(self).game == old(self).game && final(self).status@
                == Seq::<char>::empty()),
            spec_classify(ev) is Confirm && old(self).game@.outcome() != Outcome::InProgress ==> (
            r is Continue && final(self).status@ == Seq::<char>::empty() && (exists|i: int|
                0 <= i < words@.len() && final(self).game@ == crate::game::fresh_model(
                    crate::letters::lower_seq(#[trigger] words@[i]@),
                )) && final(self).game@.mistakes == 0),
            spec_classify(ev) is Other ==> (r is Continue && final(self).game == old(self).game
                && final(self).status@ == "Unhandled key"@),
            spec_classify(ev) is NoOp ==> (r is Continue && final(self).game == old(self).game
                && final(self).status@ == Seq::<char>::empty()),
    {
        let cmd = classify(ev);
        match cmd {
            Command::Quit => {
                let m = self.exit_message();
                StepOutcome::Exit(m)
            },
            Command::Letter(l) => {
                proof {
                    assert(is_lower_letter(l));
                }
                let res = self.game.guess(l);
                self.status = match res {
                    GuessResult::RoundAlreadyOver => String::from_str("Round is already over"),
                    GuessResult::AlreadyGuessed { letter } => String::from_str(
                        "Already guessed: ",
                    ).concat(letter_string(letter).as_str()),
                    GuessResult::Hit { letter, won } => {
                        if won {
                            String::from_str("You win! Word was: ").concat(
                                spoiler_string(&self.game).as_str(),
                            )
                        } else {
                            String::from_str("Found: ").concat(letter_string(letter).as_str())
                        }
                    },
                    GuessResult::Miss { letter, lost } => {
                        if lost {
                            String::from_str("FAILED, word was: ").concat(
                                spoiler_string(&self.game).as_str(),
                            )
                        } else {
                            String::from_str("Not found: ").concat(letter_string(letter).as_str())
                        }
                    },
                    GuessResult::InvalidLetter => String::from_str("Invalid letter"),
                };
                StepOutcome::Continue
            },
            Command::Confirm => {
                let oc = self.game.outcome();
                if oc == Outcome::InProgress {
                    self.status = String::new();
                } else {
                    let g = match GameState::new_round(words) {
                        Ok(g) => g,
                        Err(_) => unreached(),
                    };
                    self.game = g;
                    self.status = String::new();
                }
                StepOutcome::Continue
            },
            Command::Other => {
                self.status = String::from_str("Unhandled key");
                StepOutcome::Continue
            },
            Command::NoOp => {
                self.status = String::new();
                StepOutcome::Continue
            },
        }
    }
}

} // verus!
