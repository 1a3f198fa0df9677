//! One round of the word-guessing game: the secret word, the per-position
//! revealed flags, the per-letter guessed flags, the mistake count, and the
//! guess transition that drives them.

use vstd::prelude::*;
use crate::letters::{
    is_letter, is_lower_letter, letter_index, lower_seq, spec_to_lower, spec_to_upper, to_lower,
    to_upper, underscore_lowercase, upper_seq, LOWER_A, LOWER_Z, UNDERSCORE, UPPER_A,
};

verus! {

/// Number of illustration frames: stage 0 (empty gallows) through stage 6
/// (complete figure). Reaching stage `MAX_STAGES - 1` loses the round.
pub const MAX_STAGES: usize = 7;

/// Derived standing of a round: won when every position of the word is
/// revealed, lost when the mistake count has reached its cap.
#[derive(PartialEq, Eq, Structural, Clone, Copy, Debug)]
pub enum Outcome {
    InProgress,
    Won,
    Lost,
}

/// What one call of `guess` did. `Hit` and `Miss` carry the normalized
/// (lowercase) letter and whether that guess ended the round.
#[derive(PartialEq, Eq, Structural, Clone, Copy, Debug)]
pub enum GuessResult {
    Hit { letter: u8, won: bool },
    Miss { letter: u8, lost: bool },
    AlreadyGuessed { letter: u8 },
    RoundAlreadyOver,
    InvalidLetter,
}

/// The one fatal error: a round cannot start without any word to pick.
#[derive(PartialEq, Eq, Structural, Clone, Copy, Debug)]
pub enum GameError {
    EmptyWordList,
}

/// Read-only snapshot of a round, ready for display: the masked word, the
/// alphabet listing with guessed letters shown uppercase, the mistake count
/// (also the illustration stage), and the derived outcome.
pub struct GameView {
    pub masked: Vec<u8>,
    pub guessed_display: Vec<u8>,
    pub mistakes: usize,
    pub outcome: Outcome,
}

/// The masked word: a revealed position shows its letter uppercase, an
/// unrevealed one shows an underscore.
pub open spec fn spec_masked(m: GameModel) -> Seq<u8> {
    Seq::new(
        m.word.len(),
        |i: int|
            if m.revealed[i] {
                spec_to_upper(m.word[i])
            } else {
                UNDERSCORE
            },
    )
}

/// The alphabet listing: slot `j` shows the `j`-th letter uppercase when
/// guessed, an underscore when not.
pub open spec fn spec_guessed_display(m: GameModel) -> Seq<u8> {
    Seq::new(
        26,
        |j: int|
            if m.guessed[j] {
                (UPPER_A + j) as u8
            } else {
                UNDERSCORE
            },
    )
}

/// Mathematical model of one round: the lowercase word, one revealed flag per
/// word position, one guessed flag per alphabet letter, and the mistake count.
#[verifier::ext_equal]
pub struct GameModel {
    pub word: Seq<u8>,
    pub revealed: Seq<bool>,
    pub guessed: Seq<bool>,
    pub mistakes: int,
}

/// The model of a round that has just started on the given lowercase word:
/// nothing revealed, nothing guessed, no mistakes.
pub open spec fn fresh_model(w: Seq<u8>) -> GameModel {
    GameModel {
        word: w,
        revealed: Seq::new(w.len(), |i: int| false),
        guessed: Seq::new(26, |i: int| false),
        mistakes: 0,
    }
}

impl GameModel {
    /// Invariant of every reachable round. Besides the shape of the three
    /// sequences it records that a position is revealed exactly when its
    /// letter has been guessed, and that a fully revealed word never stands
    /// together with a spent mistake count: the won and lost readings
    /// exclude each other.
    pub open spec fn wf(self) -> bool {
        &&& self.word.len() >= 1
        &&& self.revealed.len() == self.word.len()
        &&& self.guessed.len() == 26
        &&& 0 <= self.mistakes < MAX_STAGES
        &&& (forall|i: int| 0 <= i < self.word.len() ==> is_lower_letter(#[trigger] self.word[i]))
        &&& (forall|i: int|
            0 <= i < self.word.len() ==> #[trigger] self.revealed[i] == self.guessed[letter_index(
                self.word[i],
            )])
        &&& !(self.all_revealed() && self.mistakes == MAX_STAGES - 1)
    }

    /// The letter occurs somewhere in the word.
    pub open spec fn contains_letter(self, l: u8) -> bool {
        exists|i: int| 0 <= i < self.word.len() && self.word[i] == l
    }

    /// The letter's alphabet slot is already marked guessed.
    pub open spec fn is_guessed(self, l: u8) -> bool {
        self.guessed[letter_index(l)]
    }

    /// Every position of the word is revealed.
    pub open spec fn all_revealed(self) -> bool {
        forall|i: int| 0 <= i < self.revealed.len() ==> #[trigger] self.revealed[i]
    }

    pub open spec fn is_won(self) -> bool {
        self.all_revealed()
    }

    pub open spec fn is_lost(self) -> bool {
        self.mistakes == MAX_STAGES - 1
    }

    pub open spec fn outcome(self) -> Outcome {
        if self.is_won() {
            Outcome::Won
        } else if self.is_lost() {
            Outcome::Lost
        } else {
            Outcome::InProgress
        }
    }

    /// The round after guessing the raw byte `b`: `b` is lowercased first; an
    /// invalid byte, a finished round or a repeated letter changes nothing; a
    /// hit reveals every occurrence of the letter; a miss costs one mistake.
    pub open spec fn guess_next(self, b: u8) -> GameModel {
        let l = spec_to_lower(b);
        if !is_lower_letter(l) {
            self
        } else if self.outcome() != Outcome::InProgress {
            self
        } else if self.is_guessed(l) {
            self
        } else {
            let guessed2 = self.guessed.update(letter_index(l), true);
            if self.contains_letter(l) {
                GameModel {
                    revealed: Seq::new(
                        self.revealed.len(),
                        |i: int| self.revealed[i] || self.word[i] == l,
                    ),
                    guessed: guessed2,
                    ..self
                }
            } else {
                GameModel { guessed: guessed2, mistakes: self.mistakes + 1, ..self }
            }
        }
    }

    /// What `guess` reports for the raw byte `b`, matching `guess_next`
    /// case for case.
    pub open spec fn guess_result(self, b: u8) -> GuessResult {
        let l = spec_to_lower(b);
        if !is_lower_letter(l) {
            GuessResult::InvalidLetter
        } else if self.outcome() != Outcome::InProgress {
            GuessResult::RoundAlreadyOver
        } else if self.is_guessed(l) {
            GuessResult::AlreadyGuessed { letter: l }
        } else if self.contains_letter(l) {
            GuessResult::Hit { letter: l, won: self.guess_next(b).is_won() }
        } else {
            GuessResult::Miss { letter: l, lost: self.guess_next(b).is_lost() }
        }
    }
}

/// A fresh round on a non-empty lowercase word satisfies the invariant.
pub proof fn lemma_fresh_model_wf(w: Seq<u8>)
    requires
        w.len() >= 1,
        forall|i: int| 0 <= i < w.len() ==> is_lower_letter(#[trigger] w[i]),
    ensures
        fresh_model(w).wf(),
{
    let m = fresh_model(w);
    assert(!m.revealed[0]);
    assert(!m.all_revealed());
}

/// The guess transition preserves the invariant.
pub proof fn lemma_guess_next_wf(m: GameModel, b: u8)
    requires
        m.wf(),
    ensures
        m.guess_next(b).wf(),
{
    let l = spec_to_lower(b);
    let n = m.guess_next(b);
    if is_lower_letter(l) && m.outcome() == Outcome::InProgress && !m.is_guessed(l) {
        assert(!m.is_won() && !m.is_lost());
        if m.contains_letter(l) {
            assert forall|i: int| 0 <= i < n.word.len() implies #[trigger] n.revealed[i]
                == n.guessed[letter_index(n.word[i])] by {
                if m.word[i] == l {
                    assert(n.guessed[letter_index(l)]);
                } else {
                    assert(letter_index(m.word[i]) != letter_index(l));
                }
            }
            assert(n.mistakes < MAX_STAGES - 1);
        } else {
            assert forall|i: int| 0 <= i < n.word.len() implies #[trigger] n.revealed[i]
                == n.guessed[letter_index(n.word[i])] by {
                assert(m.word[i] != l);
                assert(letter_index(m.word[i]) != letter_index(l));
            }
            assert(!m.all_revealed());
            assert(n.revealed == m.revealed);
            assert(!n.all_revealed());
        }
    }
}

/// One round in play. The fields follow `GameModel` exactly; the word is held
/// lowercase and reveal state lives in explicit flags rather than in letter
/// case.
pub struct GameState {
    word: Vec<u8>,
    revealed: Vec<bool>,
    guessed: Vec<bool>,
    mistakes: usize,
}

impl View for GameState {
    type V = GameModel;

    closed spec fn view(&self) -> GameModel {
        GameModel {
            word: self.word@,
            revealed: self.revealed@,
            guessed: self.guessed@,
            mistakes: self.mistakes as int,
        }
    }
}

/// Relies on rand::rngs::ThreadRng and rand::Rng::gen_range: a value drawn
/// uniformly from `0..n`; `gen_range` panics only on an empty range, which
/// `n > 0` rules out. Nothing beyond `r < n` is assumed of the draw.
#[verifier::external_body]
fn random_below(n: usize) -> (r: usize)
    requires
        n > 0,
    ensures
        r < n,
{
    rand::Rng::gen_range(&mut rand::thread_rng(), 0..n)
}

impl GameState {
    /// Start a round on the given word, which may arrive in any mix of case:
    /// it is normalized to lowercase, nothing is revealed or guessed, and the
    /// mistake count is zero.
    pub fn from_word(word: &Vec<u8>) -> (g: GameState)
        requires
            word@.len() >= 1,
            forall|i: int| 0 <= i < word@.len() ==> is_letter(#[trigger] word@[i]),
        ensures
            g@ == fresh_model(lower_seq(word@)),
            g@.wf(),
    {
        let n = word.len();
        let mut w: Vec<u8> = Vec::new();
        let mut revealed: Vec<bool> = Vec::new();
        let mut i: usize = 0;
        while i < n
            invariant
                n == word@.len(),
                i <= n,
                w@.len() == i,
                revealed@.len() == i,
                forall|j: int| 0 <= j < i ==> w@[j] == spec_to_lower(#[trigger] word@[j]),
                forall|j: int| 0 <= j < i ==> !(#[trigger] revealed@[j]),
            decreases n - i,
        {
            w.push(to_lower(word[i]));
            revealed.push(false);
            i += 1;
        }
        let mut guessed: Vec<bool> = Vec::new();
        let mut j: usize = 0;
        while j < 26
            invariant
                j <= 26,
                guessed@.len() == j,
                forall|k: int| 0 <= k < j ==> !(#[trigger] guessed@[k]),
            decreases 26 - j,
        {
            guessed.push(false);
            j += 1;
        }
        let g = GameState { word: w, revealed, guessed, mistakes: 0 };
        proof {
            assert(g@.word =~= lower_seq(word@));
            assert(g@ =~= fresh_model(lower_seq(word@)));
            lemma_fresh_model_wf(lower_seq(word@));
        }
        g
    }

    /// Start a round on a word picked uniformly at random from the list.
    /// Fails, with `EmptyWordList`, exactly when the list is empty.
    pub fn new_round(words: &Vec<Vec<u8>>) -> (r: Result<GameState, GameError>)
        requires
            forall|i: int| 0 <= i < words@.len() ==> (#[trigger] words@[i])@.len() >= 1,
            forall|i: int, j: int|
                0 <= i < words@.len() && 0 <= j < words@[i]@.len() ==> is_letter(
                    #[trigger] words@[i]@[j],
                ),
        ensures
            words@.len() == 0 ==> r == Err::<GameState, GameError>(GameError::EmptyWordList),
            words@.len() > 0 ==> (r matches Ok(g) && g@.wf() && (exists|i: int|
                0 <= i < words@.len() && g@ == fresh_model(lower_seq(#[trigger] words@[i]@)))),
    {
        if words.len() == 0 {
            return Err(GameError::EmptyWordList);
        }
        let idx = random_below(words.len());
        let g = GameState::from_word(&words[idx]);
        Ok(g)
    }

    /// Whether every position of the word is revealed.
    fn check_all_revealed(&self) -> (r: bool)
        ensures
            r == self@.all_revealed(),
    {
        let mut i: usize = 0;
        while i < self.revealed.len()
            invariant
                i <= self.revealed.len(),
                forall|j: int| 0 <= j < i ==> #[trigger] self.revealed@[j],
            decreases self.revealed.len() - i,
        {
            if !self.revealed[i] {
                proof {
                    assert(!self@.revealed[i as int]);
                }
                return false;
            }
            i += 1;
        }
        true
    }

    /// The derived standing of the round.
    pub fn outcome(&self) -> (r: Outcome)
        ensures
            r == self@.outcome(),
    {
        if self.check_all_revealed() {
            Outcome::Won
        } else if self.mistakes == MAX_STAGES - 1 {
            Outcome::Lost
        } else {
            Outcome::InProgress
        }
    }

    /// Current mistake count, which is also the illustration stage to show.
    pub fn mistake_count(&self) -> (r: usize)
        ensures
            r == self@.mistakes,
    {
        self.mistakes
    }

    /// The secret word in full uppercase, for the spoiler shown on exit.
    pub fn upper_word(&self) -> (r: Vec<u8>)
        requires
            self@.wf(),
        ensures
            r@ == upper_seq(self@.word),
    {
        let mut r: Vec<u8> = Vec::new();
        let mut i: usize = 0;
        let n = self.word.len();
        while i < n
            invariant
                n == self.word@.len(),
                i <= n,
                r@.len() == i,
                forall|j: int| 0 <= j < i ==> r@[j] == spec_to_upper(#[trigger] self.word@[j]),
            decreases n - i,
        {
            r.push(to_upper(self.word[i]));
            i += 1;
        }
        proof {
            assert(r@ =~= upper_seq(self@.word));
        }
        r
    }

    /// Pure projection of the round for display; mutates nothing. Each word
    /// position and each alphabet slot passes through the case-encoding and
    /// the underscore rule: shown uppercase when revealed or guessed, masked
    /// otherwise.
    pub fn render_view(&self) -> (v: GameView)
        requires
            self@.wf(),
        ensures
            v.masked@ == spec_masked(self@),
            v.guessed_display@ == spec_guessed_display(self@),
            v.mistakes == self@.mistakes,
            v.outcome == self@.outcome(),
    {
        let n = self.word.len();
        let mut masked: Vec<u8> = Vec::new();
        let mut i: usize = 0;
        while i < n
            invariant
                self@.wf(),
                n == self.word@.len(),
                i <= n,
                masked@.len() == i,
                forall|j: int| 0 <= j < i ==> masked@[j] == spec_masked(self@)[j],
            decreases n - i,
        {
            let encoded = if self.revealed[i] {
                to_upper(self.word[i])
            } else {
                self.word[i]
            };
            masked.push(underscore_lowercase(encoded));
            proof {
                assert(is_lower_letter(self@.word[i as int]));
            }
            i += 1;
        }
        let mut guessed_display: Vec<u8> = Vec::new();
        let mut j: usize = 0;
        while j < 26
            invariant
                self@.wf(),
                j <= 26,
                guessed_display@.len() == j,
                forall|k: int| 0 <= k < j ==> guessed_display@[k] == spec_guessed_display(self@)[k],
            decreases 26 - j,
        {
            let letter = LOWER_A + (j as u8);
            let encoded = if self.guessed[j] {
                to_upper(letter)
            } else {
                letter
            };
            guessed_display.push(underscore_lowercase(encoded));
            j += 1;
        }
        proof {
            assert(masked@ =~= spec_masked(self@));
            assert(guessed_display@ =~= spec_guessed_display(self@));
        }
        GameView {
            masked,
            guessed_display,
            mistakes: self.mistakes,
            outcome: self.outcome(),
        }
    }

    /// Apply one guess. The whole effect and the report are fixed by the
    /// model transition `guess_next` / `guess_result`: a byte outside the
    /// alphabet (after lowercasing) is rejected, a finished round and a
    /// repeated letter are left untouched, a hit reveals every occurrence of
    /// the letter, and a miss adds one mistake.
    pub fn guess(&mut self, letter: u8) -> (r: GuessResult)
        requires
            old(self)@.wf(),
        ensures
            final(self)@ == old(self)@.guess_next(letter),
            r == old(self)@.guess_result(letter),
            final(self)@.wf(),
    {
        proof {
            lemma_guess_next_wf(old(self)@, letter);
        }
        let l = to_lower(letter);
        if !(LOWER_A <= l && l <= LOWER_Z) {
            return GuessResult::InvalidLetter;
        }
        let oc = self.outcome();
        if oc != Outcome::InProgress {
            return GuessResult::RoundAlreadyOver;
        }
        let idx = (l - LOWER_A) as usize;
        if self.guessed[idx] {
            return GuessResult::AlreadyGuessed { letter: l };
        }
        self.guessed.set(idx, true);
        let mut found = false;
        let mut i: usize = 0;
        let n = self.word.len();
        while i < n
            invariant
                n == self.word@.len(),
                i <= n,
                self.word@ == old(self)@.word,
                self.guessed@ == old(self)@.guessed.update(letter_index(l), true),
                self.mistakes == old(self)@.mistakes,
                self.revealed@.len() == old(self)@.revealed.len(),
                old(self)@.revealed.len() == n,
                forall|j: int|
                    0 <= j < i ==> #[trigger] self.revealed@[j] == (old(self)@.revealed[j]
                        || old(self)@.word[j] == l),
                forall|j: int| i <= j < n ==> #[trigger] self.revealed@[j] == old(self)@.revealed[j],
                found == (exists|j: int| 0 <= j < i && old(self)@.word[j] == l),
            decreases n - i,
        {
            if self.word[i] == l {
                self.revealed.set(i, true);
                found = true;
            }
            i += 1;
        }
        if found {
            proof {
                assert(old(self)@.contains_letter(l));
                assert(self@.revealed =~= old(self)@.guess_next(letter).revealed);
                assert(self@ =~= old(self)@.guess_next(letter));
            }
            let won = self.check_all_revealed();
            GuessResult::Hit { letter: l, won }
        } else {
            proof {
                assert(!old(self)@.contains_letter(l));
                assert(self@.revealed =~= old(self)@.revealed);
            }
            self.mistakes = self.mistakes + 1;
            proof {
                assert(self@ =~= old(self)@.guess_next(letter));
            }
            let lost = self.mistakes == MAX_STAGES - 1;
            GuessResult::Miss { letter: l, lost }
        }
    }
}

} // verus!
