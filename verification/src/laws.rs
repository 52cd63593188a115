//! Laws of the core, stated and proved once for all inputs: determinism
//! and shape of the scoring engine, the validator's acceptance
//! condition, and how submissions drive a round into its terminal
//! states.

use crate::events::InputEvent;
use crate::game::{all_correct, in_pool, score_row, valid_guess, CharState, NUM_CHARS, NUM_GUESSES};
use crate::round::RoundState;
use vstd::prelude::*;

verus! {

/// How many cells of a row hold a `CORRECT` verdict.
pub open spec fn count_correct(row: Seq<CharState>) -> nat
    decreases row.len(),
{
    if row.len() == 0 {
        0
    } else {
        count_correct(row.drop_last()) + if row.last() is CORRECT {
            1nat
        } else {
            0nat
        }
    }
}

/// How many cells of a row hold an `EXISTS` verdict.
pub open spec fn count_exists(row: Seq<CharState>) -> nat
    decreases row.len(),
{
    if row.len() == 0 {
        0
    } else {
        count_exists(row.drop_last()) + if row.last() is EXISTS {
            1nat
        } else {
            0nat
        }
    }
}

/// How many cells of a row hold a `WRONG` verdict.
pub open spec fn count_wrong(row: Seq<CharState>) -> nat
    decreases row.len(),
{
    if row.len() == 0 {
        0
    } else {
        count_wrong(row.drop_last()) + if row.last() is WRONG {
            1nat
        } else {
            0nat
        }
    }
}

/// In a row without `EMPTY` cells, every cell is counted exactly once,
/// so the three counts sum to the row's length.
proof fn lemma_counts_sum(row: Seq<CharState>)
    requires
        forall|i: int| 0 <= i < row.len() ==> !((#[trigger] row[i]) is EMPTY),
    ensures
        count_correct(row) + count_exists(row) + count_wrong(row) == row.len(),
    decreases row.len(),
{
    if row.len() > 0 {
        assert(forall|i: int|
            0 <= i < row.drop_last().len() ==> #[trigger] row.drop_last()[i] == row[i]);
        lemma_counts_sum(row.drop_last());
    }
}

/// Scoring is deterministic: two rows scored from the same guess and
/// the same solution are the same row.
pub proof fn lemma_score_deterministic(
    guess: Seq<char>,
    solution: Seq<char>,
    row1: Seq<CharState>,
    row2: Seq<CharState>,
)
    requires
        row1 == score_row(guess, solution),
        row2 == score_row(guess, solution),
    ensures
        row1 == row2,
{
}

/// Scoring a word against itself marks every position `CORRECT` and
/// wins.
pub proof fn lemma_score_self(s: Seq<char>)
    ensures
        all_correct(s, s),
        forall|i: int| 0 <= i < s.len() ==> score_row(s, s)[i] == CharState::CORRECT(s[i]),
{
}

/// Scoring a full-length guess yields exactly one verdict per character
/// position, none of them `EMPTY`, and the counts of `CORRECT`,
/// `EXISTS` and `WRONG` verdicts sum to `NUM_CHARS`.
pub proof fn lemma_score_row_counts(guess: Seq<char>, solution: Seq<char>)
    requires
        guess.len() == NUM_CHARS,
    ensures
        score_row(guess, solution).len() == NUM_CHARS,
        forall|i: int|
            0 <= i < NUM_CHARS ==> !((#[trigger] score_row(guess, solution)[i]) is EMPTY),
        count_correct(score_row(guess, solution)) + count_exists(score_row(guess, solution))
            + count_wrong(score_row(guess, solution)) == NUM_CHARS,
{
    lemma_counts_sum(score_row(guess, solution));
}

/// The validator rejects every buffer whose length is not `NUM_CHARS`,
/// whatever the pool holds.
pub proof fn lemma_validate_length(guess: Seq<char>, pool: Seq<String>)
    ensures
        guess.len() != NUM_CHARS ==> !valid_guess(guess, pool),
{
}

/// The validator rejects every buffer that is not in the pool, and
/// accepts every pool member of the right length.
pub proof fn lemma_validate_membership(guess: Seq<char>, pool: Seq<String>)
    ensures
        !in_pool(guess, pool) ==> !valid_guess(guess, pool),
        guess.len() == NUM_CHARS && in_pool(guess, pool) ==> valid_guess(guess, pool),
{
}

/// An accepted submission advances the round by one row; when it does
/// not solve the round, the round is exhausted exactly when it used the
/// last row, and keeps playing otherwise.
pub proof fn lemma_submission_progress(pre: RoundState, post: RoundState, pool: Seq<String>)
    requires
        pre.wf(),
        RoundState::submit_rel(pre, post, pool, true),
    ensures
        post.cur_guess == pre.cur_guess + 1,
        !all_correct(pre.guess_buf.component@, pre.solution@) ==> (post.exhausted() <==> pre.cur_guess
            + 1 == NUM_GUESSES),
        !all_correct(pre.guess_buf.component@, pre.solution@) ==> (post.playing() <==> pre.cur_guess
            + 1 < NUM_GUESSES),
{
}

/// A submission that matches the solution on every position wins the
/// round.
pub proof fn lemma_winning_submission(pre: RoundState, post: RoundState, pool: Seq<String>)
    requires
        pre.wf(),
        RoundState::submit_rel(pre, post, pool, true),
        all_correct(pre.guess_buf.component@, pre.solution@),
    ensures
        post.won(),
{
}

/// Once a round is won or exhausted, a submission changes nothing and
/// is rejected.
pub proof fn lemma_terminal_submit_is_noop(
    pre: RoundState,
    post: RoundState,
    pool: Seq<String>,
    accepted: bool,
)
    requires
        !pre.playing(),
        RoundState::submit_rel(pre, post, pool, accepted),
    ensures
        post == pre,
        !accepted,
{
}

/// Once a round is won or exhausted, an edit leaves the whole round,
/// the guess buffer included, as it was.
pub proof fn lemma_terminal_edit_is_noop(pre: RoundState, post: RoundState, ev: InputEvent)
    requires
        !pre.playing(),
        RoundState::edit_rel(pre, post, ev),
    ensures
        post.guess_buf.component@ == pre.guess_buf.component@,
        post.prev_guesses == pre.prev_guesses,
        post.solution == pre.solution,
        post.cur_guess == pre.cur_guess,
        post.is_won == pre.is_won,
{
}

} // verus!
