//! The round state machine: it owns the guess rows, the in-progress
//! guess buffer, and the hidden solution, and it sequences submissions,
//! win and exhaustion detection, and round reset.

use crate::events::InputEvent;
use crate::game::{
    all_correct, check_guess, empty_row, empty_row_vec, in_pool, is_valid_guess,
    lemma_row_all_correct_iff, pick_solution, reset_game, row_all_correct, score_row, valid_guess,
    CharState, GameComponent, NUM_CHARS, NUM_GUESSES,
};
use vstd::prelude::*;
use vstd::string::StrSliceExecFns;

verus! {

/// A pool of words fit to draw solutions from: every word in it has
/// exactly `NUM_CHARS` characters. That the pool is non-empty is
/// demanded separately wherever a word must be drawn.
pub open spec fn pool_wf(pool: Seq<String>) -> bool {
    forall|i: int| 0 <= i < pool.len() ==> (#[trigger] pool[i])@.len() == NUM_CHARS
}

/// Whether the character is a lowercase letter, the only kind of
/// character the guess buffer accepts.
pub open spec fn is_lowercase_letter(c: char) -> bool {
    'a' <= c && c <= 'z'
}

/// One round of the game: the six guess rows, the in-progress guess
/// buffer, the hidden solution, and how far the round has advanced.
pub struct RoundState {
    /// The guess rows, filled top-down, one per submitted guess.
    pub prev_guesses: Vec<GameComponent<Vec<CharState>>>,
    /// The letters typed so far for the next guess.
    pub guess_buf: GameComponent<String>,
    /// The hidden word the player is trying to guess.
    pub solution: String,
    /// How many guesses have been submitted; also the index of the next
    /// free row.
    pub cur_guess: usize,
    /// Whether some submitted guess matched the solution exactly.
    pub is_won: bool,
}

impl RoundState {
    /// Rows are filled strictly top-down: every row at or past the
    /// next free index is still empty.
    pub open spec fn rows_filled_top_down(self) -> bool {
        forall|i: int|
            self.cur_guess <= i < self.prev_guesses@.len() ==> (
            #[trigger] self.prev_guesses@[i]).component@ == empty_row()
    }

    /// The round counts as solved exactly when some submitted row is
    /// all-`CORRECT`.
    pub open spec fn won_matches_rows(self) -> bool {
        self.is_won <==> exists|i: int|
            0 <= i < self.cur_guess && row_all_correct(
                (#[trigger] self.prev_guesses@[i]).component@,
            )
    }

    /// Well-formedness of a round: six rows of `NUM_CHARS` cells each, a
    /// buffer of at most `NUM_CHARS` characters, a solution of exactly
    /// `NUM_CHARS` characters, a row index that never runs past the
    /// last row, rows filled top-down, and a win flag that agrees with
    /// the rows.
    pub open spec fn wf(self) -> bool {
        &&& self.prev_guesses@.len() == NUM_GUESSES
        &&& forall|i: int|
            0 <= i < self.prev_guesses@.len() ==> (
            #[trigger] self.prev_guesses@[i]).component@.len() == NUM_CHARS
        &&& self.cur_guess <= NUM_GUESSES
        &&& self.guess_buf.component@.len() <= NUM_CHARS
        &&& self.solution@.len() == NUM_CHARS
        &&& self.rows_filled_top_down()
        &&& self.won_matches_rows()
    }

    /// The round still accepts guesses.
    pub open spec fn playing(self) -> bool {
        !self.is_won && self.cur_guess < NUM_GUESSES
    }

    /// Some submitted guess matched the solution.
    pub open spec fn won(self) -> bool {
        self.is_won
    }

    /// All rows were used without a win; the round accepts no more
    /// guesses.
    pub open spec fn exhausted(self) -> bool {
        !self.is_won && self.cur_guess >= NUM_GUESSES
    }

    /// A freshly started round against a solution drawn from `pool`:
    /// nothing submitted, every row empty, the buffer empty.
    pub open spec fn fresh(self, pool: Seq<String>) -> bool {
        &&& self.cur_guess == 0
        &&& !self.is_won
        &&& forall|i: int|
            0 <= i < self.prev_guesses@.len() ==> (
            #[trigger] self.prev_guesses@[i]).component@ == empty_row()
        &&& self.guess_buf.component@.len() == 0
        &&& in_pool(self.solution@, pool)
    }

    /// Start a round: six empty rows, an empty buffer, and a solution
    /// drawn from the pool.
    pub fn new(solutions: &Vec<String>) -> (round: RoundState)
        requires
            solutions@.len() > 0,
            pool_wf(solutions@),
        ensures
            round.wf(),
            round.fresh(solutions@),
            round.playing(),
    {
        let mut rows: Vec<GameComponent<Vec<CharState>>> = Vec::new();
        let mut i: usize = 0;
        while i < NUM_GUESSES
            invariant
                i <= NUM_GUESSES,
                rows@.len() == i,
                forall|j: int|
                    0 <= j < i ==> (#[trigger] rows@[j]).component@ == empty_row(),
            decreases NUM_GUESSES - i,
        {
            rows.push(GameComponent { component: empty_row_vec(), ypos: 0, xpos: 0 });
            i = i + 1;
        }
        let solution: String = pick_solution(solutions);
        RoundState {
            prev_guesses: rows,
            guess_buf: GameComponent { component: String::new(), ypos: 0, xpos: 0 },
            solution,
            cur_guess: 0,
            is_won: false,
        }
    }

    /// How one `submit` call relates the round before it to the round
    /// after it. While the round is playing and the buffer holds a valid
    /// guess, the buffer is scored into the next free row, the row index
    /// advances, the buffer is cleared, and the round is won exactly
    /// when every position was correct. Otherwise nothing changes and
    /// the submission is rejected.
    pub open spec fn submit_rel(pre: RoundState, post: RoundState, pool: Seq<String>, accepted: bool) -> bool {
        if pre.playing() && valid_guess(pre.guess_buf.component@, pool) {
            &&& accepted
            &&& post.prev_guesses@.len() == pre.prev_guesses@.len()
            &&& post.prev_guesses@[pre.cur_guess as int].component@ == score_row(
                pre.guess_buf.component@,
                pre.solution@,
            )
            &&& post.prev_guesses@[pre.cur_guess as int].ypos == pre.prev_guesses@[pre.cur_guess as int].ypos
            &&& post.prev_guesses@[pre.cur_guess as int].xpos == pre.prev_guesses@[pre.cur_guess as int].xpos
            &&& forall|i: int|
                0 <= i < pre.prev_guesses@.len() && i != pre.cur_guess ==> post.prev_guesses@[i]
                    == pre.prev_guesses@[i]
            &&& post.cur_guess == pre.cur_guess + 1
            &&& post.guess_buf.component@.len() == 0
            &&& post.guess_buf.ypos == pre.guess_buf.ypos
            &&& post.guess_buf.xpos == pre.guess_buf.xpos
            &&& post.is_won == all_correct(pre.guess_buf.component@, pre.solution@)
            &&& post.solution == pre.solution
        } else {
            &&& !accepted
            &&& post == pre
        }
    }

    /// Submit the current guess buffer. A submission is accepted only
    /// while the round is playing and the buffer is a valid guess; an
    /// accepted submission scores the buffer into the next free row and
    /// clears the buffer, and a rejected one changes nothing.
    pub fn submit(&mut self, all_words: &Vec<String>) -> (accepted: bool)
        requires
            old(self).wf(),
        ensures
            final(self).wf(),
            RoundState::submit_rel(*old(self), *final(self), all_words@, accepted),
    {
        if self.is_won || self.cur_guess >= NUM_GUESSES {
            return false;
        }
        if !is_valid_guess(&self.guess_buf.component, all_words) {
            return false;
        }
        let idx: usize = self.cur_guess;
        let is_won: bool = check_guess(
            &self.guess_buf.component,
            &mut self.prev_guesses[idx],
            &self.solution,
        );
        self.is_won = is_won;
        self.cur_guess = idx + 1;
        self.guess_buf.component.clear();
        proof {
            let g = old(self).guess_buf.component@;
            let sol = old(self).solution@;
            lemma_row_all_correct_iff(g, sol);
            assert(self.prev_guesses@[idx as int].component@ == score_row(g, sol));
            if self.is_won {
                assert(0 <= idx < self.cur_guess && row_all_correct(
                    self.prev_guesses@[idx as int].component@,
                ));
            } else {
                assert forall|i: int| 0 <= i < self.cur_guess implies !row_all_correct(
                    (#[trigger] self.prev_guesses@[i]).component@,
                ) by {
                    if i != idx {
                        assert(self.prev_guesses@[i] == old(self).prev_guesses@[i]);
                        assert(!old(self).is_won);
                    }
                }
            }
        }
        true
    }

    /// What the guess buffer holds after one `edit` call: while the
    /// round is playing, a lowercase letter is appended as long as the
    /// buffer is not full, backspace drops the last character of a
    /// non-empty buffer, and every other event leaves it alone. Once the
    /// round is over the buffer no longer changes.
    pub open spec fn edited_buffer(buf: Seq<char>, ev: InputEvent, playing: bool) -> Seq<char> {
        if !playing {
            buf
        } else {
            match ev {
                InputEvent::Letter(c) => if is_lowercase_letter(c) && buf.len() < NUM_CHARS {
                    buf.push(c)
                } else {
                    buf
                },
                InputEvent::Backspace => if buf.len() > 0 {
                    buf.drop_last()
                } else {
                    buf
                },
                _ => buf,
            }
        }
    }

    /// How one `edit` call relates the round before it to the round
    /// after it: only the guess buffer's text changes, and it changes to
    /// `edited_buffer` of the old text.
    pub open spec fn edit_rel(pre: RoundState, post: RoundState, ev: InputEvent) -> bool {
        &&& post.prev_guesses == pre.prev_guesses
        &&& post.solution == pre.solution
        &&& post.cur_guess == pre.cur_guess
        &&& post.is_won == pre.is_won
        &&& post.guess_buf.ypos == pre.guess_buf.ypos
        &&& post.guess_buf.xpos == pre.guess_buf.xpos
        &&& post.guess_buf.component@ == RoundState::edited_buffer(
            pre.guess_buf.component@,
            ev,
            pre.playing(),
        )
    }

    /// Edit the guess buffer with one input event.
    pub fn edit(&mut self, ev: InputEvent)
        requires
            old(self).wf(),
        ensures
            final(self).wf(),
            RoundState::edit_rel(*old(self), *final(self), ev),
    {
        if self.is_won || self.cur_guess >= NUM_GUESSES {
            return;
        }
        match ev {
            InputEvent::Letter(c) => {
                if 'a' <= c && c <= 'z' && self.guess_buf.component.as_str().unicode_len()
                    < NUM_CHARS {
                    self.guess_buf.component.push(c);
                }
            },
            InputEvent::Backspace => {
                let _popped: Option<char> = self.guess_buf.component.pop();
            },
            _ => {},
        }
    }

    /// The screen layout of two rounds agrees: the same number of rows,
    /// and every row and the guess buffer keep their positions.
    pub open spec fn same_layout(pre: RoundState, post: RoundState) -> bool {
        &&& post.prev_guesses@.len() == pre.prev_guesses@.len()
        &&& forall|i: int|
            0 <= i < pre.prev_guesses@.len() ==> {
                &&& (#[trigger] post.prev_guesses@[i]).ypos == pre.prev_guesses@[i].ypos
                &&& post.prev_guesses@[i].xpos == pre.prev_guesses@[i].xpos
            }
        &&& post.guess_buf.ypos == pre.guess_buf.ypos
        &&& post.guess_buf.xpos == pre.guess_buf.xpos
    }

    /// Reset the round so the game can be replayed: every row emptied,
    /// the buffer cleared, a fresh solution drawn from the pool, and the
    /// row index back at the top. Screen positions are kept.
    pub fn reset(&mut self, solutions: &Vec<String>)
        requires
            old(self).wf(),
            solutions@.len() > 0,
            pool_wf(solutions@),
        ensures
            final(self).wf(),
            final(self).fresh(solutions@),
            final(self).playing(),
            RoundState::same_layout(*old(self), *final(self)),
    {
        reset_game(&mut self.prev_guesses, &mut self.guess_buf, &mut self.solution, solutions);
        self.cur_guess = 0;
        self.is_won = false;
    }
}

} // verus!
