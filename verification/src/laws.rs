//! Laws of the guess transition, stated over the round model: what a miss
//! and a hit do, that repeating a guess changes nothing, that won and lost
//! exclude each other, and the bound that forces a round to end within 26
//! fresh guesses.

use vstd::prelude::*;
use crate::game::{GameModel, GuessResult, Outcome, MAX_STAGES};
use crate::letters::{is_lower_letter, letter_index};

verus! {

/// How many flags of the sequence are set.
pub open spec fn count_true(s: Seq<bool>) -> int
    decreases s.len(),
{
    if s.len() == 0 {
        0
    } else {
        count_true(s.drop_last()) + if s.last() {
            1int
        } else {
            0int
        }
    }
}

/// The count of set flags never exceeds the length.
pub proof fn lemma_count_true_bounds(s: Seq<bool>)
    ensures
        0 <= count_true(s) <= s.len(),
    decreases s.len(),
{
    if s.len() > 0 {
        lemma_count_true_bounds(s.drop_last());
    }
}

/// A sequence whose count of set flags equals its length is all set.
pub proof fn lemma_count_true_full(s: Seq<bool>)
    requires
        count_true(s) == s.len(),
    ensures
        forall|i: int| 0 <= i < s.len() ==> s[i],
    decreases s.len(),
{
    if s.len() > 0 {
        lemma_count_true_bounds(s.drop_last());
        assert(s.last());
        lemma_count_true_full(s.drop_last());
        assert forall|i: int| 0 <= i < s.len() implies s[i] by {
            if i < s.len() - 1 {
                assert(s.drop_last()[i]);
            }
        }
    }
}

/// Setting one unset flag raises the count by exactly one.
pub proof fn lemma_count_true_update(s: Seq<bool>, i: int)
    requires
        0 <= i < s.len(),
        !s[i],
    ensures
        count_true(s.update(i, true)) == count_true(s) + 1,
    decreases s.len(),
{
    let t = s.update(i, true);
    if i == s.len() - 1 {
        assert(t.drop_last() =~= s.drop_last());
    } else {
        assert(t.drop_last() =~= s.drop_last().update(i, true));
        lemma_count_true_update(s.drop_last(), i);
    }
}

/// A letter not in the word, freshly guessed in a live round, raises the
/// mistake count by exactly one and reveals no position.
pub proof fn lemma_miss_effect(m: GameModel, l: u8)
    requires
        m.wf(),
        is_lower_letter(l),
        m.outcome() == Outcome::InProgress,
        !m.is_guessed(l),
        !m.contains_letter(l),
    ensures
        m.guess_next(l).mistakes == m.mistakes + 1,
        m.guess_next(l).revealed == m.revealed,
{
}

/// A letter of the word, freshly guessed in a live round, reveals every one
/// of its occurrences, leaves every other position as it was, and leaves the
/// mistake count unchanged.
pub proof fn lemma_hit_effect(m: GameModel, l: u8)
    requires
        m.wf(),
        is_lower_letter(l),
        m.outcome() == Outcome::InProgress,
        !m.is_guessed(l),
        m.contains_letter(l),
    ensures
        m.guess_next(l).mistakes == m.mistakes,
        forall|i: int|
            0 <= i < m.word.len() && m.word[i] == l ==> #[trigger] m.guess_next(l).revealed[i],
        forall|i: int|
            0 <= i < m.word.len() && m.word[i] != l ==> #[trigger] m.guess_next(l).revealed[i]
                == m.revealed[i],
{
}

/// Guessing the same letter twice: the second guess changes nothing, and is
/// reported as `AlreadyGuessed` whenever the first guess left the round in
/// progress (a first guess that ended the round is reported
/// `RoundAlreadyOver` instead).
pub proof fn lemma_guess_idempotent(m: GameModel, l: u8)
    requires
        m.wf(),
        is_lower_letter(l),
        m.outcome() == Outcome::InProgress,
        !m.is_guessed(l),
    ensures
        m.guess_next(l).guess_next(l) == m.guess_next(l),
        m.guess_next(l).outcome() == Outcome::InProgress ==> m.guess_next(l).guess_result(l)
            == (GuessResult::AlreadyGuessed { letter: l }),
        m.guess_next(l).outcome() != Outcome::InProgress ==> m.guess_next(l).guess_result(l)
            == GuessResult::RoundAlreadyOver,
{
    let n = m.guess_next(l);
    assert(n.is_guessed(l));
}

/// Within a round the mistake count never goes down, and never leaves
/// `0..MAX_STAGES`.
pub proof fn lemma_mistakes_monotonic(m: GameModel, b: u8)
    requires
        m.wf(),
    ensures
        m.mistakes <= m.guess_next(b).mistakes < MAX_STAGES,
{
}

/// Won and lost are never simultaneously true of a reachable round.
pub proof fn lemma_won_lost_exclusive(m: GameModel)
    requires
        m.wf(),
    ensures
        !(m.is_won() && m.is_lost()),
{
}

/// A fresh guess in a live round marks one more letter as guessed.
pub proof fn lemma_fresh_guess_count(m: GameModel, l: u8)
    requires
        m.wf(),
        is_lower_letter(l),
        m.outcome() == Outcome::InProgress,
        !m.is_guessed(l),
    ensures
        count_true(m.guess_next(l).guessed) == count_true(m.guessed) + 1,
{
    lemma_count_true_update(m.guessed, letter_index(l));
}

/// A live round has guessed fewer than 26 letters. Together with
/// `lemma_fresh_guess_count` this bounds any strategy that never repeats a
/// letter: each of its guesses raises the count by one, so within at most 26
/// guesses the round has reached a terminal outcome.
pub proof fn lemma_in_progress_bound(m: GameModel)
    requires
        m.wf(),
        m.outcome() == Outcome::InProgress,
    ensures
        count_true(m.guessed) < 26,
{
    lemma_count_true_bounds(m.guessed);
    if count_true(m.guessed) == 26 {
        lemma_count_true_full(m.guessed);
        assert forall|i: int| 0 <= i < m.revealed.len() implies #[trigger] m.revealed[i] by {
            assert(is_lower_letter(m.word[i]));
            assert(m.guessed[letter_index(m.word[i])]);
        }
        assert(m.is_won());
    }
}

} // verus!
