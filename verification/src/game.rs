//! Guess validation, guess scoring, and resetting of the round data.

use rand::seq::IndexedRandom;
use vstd::prelude::*;
use vstd::string::StrSliceExecFns;

verus! {

/// Relies on `String::push` of std: appends the given character to the
/// end of the string.
pub assume_specification[ String::push ](s: &mut String, ch: char)
    ensures
        final(s)@ == old(s)@.push(ch),
;

/// Relies on `String::pop` of std: removes and returns the last
/// character, or returns `None` when the string is empty.
pub assume_specification[ String::pop ](s: &mut String) -> (r: Option<char>)
    ensures
        old(s)@.len() == 0 ==> r is None && final(s)@ == old(s)@,
        old(s)@.len() > 0 ==> r == Some(old(s)@.last()) && final(s)@ == old(s)@.drop_last(),
;

/// Relies on `String::clear` of std: removes all contents.
pub assume_specification[ String::clear ](s: &mut String)
    ensures
        final(s)@ == Seq::<char>::empty(),
;

/// Length of every solution word and of every accepted guess.
pub const NUM_CHARS: usize = 5;

/// Number of guess rows a round offers before it is exhausted.
pub const NUM_GUESSES: usize = 6;

/// Judgement on a single letter cell of a guess row.
///
/// `EMPTY` is the placeholder of a cell whose row has not been submitted
/// yet; the other three carry the guessed character together with how it
/// relates to the solution.
#[allow(non_camel_case_types)]
#[derive(Debug, Clone, Copy, PartialEq, Eq)]
pub enum CharState {
    WRONG(char),
    EXISTS(char),
    CORRECT(char),
    EMPTY,
}

/// A piece of game state together with the screen position it is drawn
/// at. The core never interprets the position fields; they ride along for
/// the rendering layer.
#[derive(Debug, Clone)]
pub struct GameComponent<T> {
    pub component: T,
    pub ypos: i32,
    pub xpos: i32,
}

/// The character of the solution that position `i` of a guess is compared
/// against: the solution's own character there, or a filler that matches
/// no lowercase letter when the guess runs past the solution's end.
pub open spec fn sol_char(solution: Seq<char>, i: int) -> char {
    if 0 <= i < solution.len() {
        solution[i]
    } else {
        '_'
    }
}

/// The verdict on position `i` of `guess` against `solution`: correct
/// position first, then presence anywhere in the solution, else absent.
pub open spec fn verdict(guess: Seq<char>, solution: Seq<char>, i: int) -> CharState {
    if guess[i] == sol_char(solution, i) {
        CharState::CORRECT(guess[i])
    } else if solution.contains(guess[i]) {
        CharState::EXISTS(guess[i])
    } else {
        CharState::WRONG(guess[i])
    }
}

/// A guess wins when every one of its positions matches the solution.
pub open spec fn all_correct(guess: Seq<char>, solution: Seq<char>) -> bool {
    forall|i: int| 0 <= i < guess.len() ==> guess[i] == sol_char(solution, i)
}

/// The full row of verdicts for `guess` against `solution`.
pub open spec fn score_row(guess: Seq<char>, solution: Seq<char>) -> Seq<CharState> {
    Seq::new(guess.len(), |i: int| verdict(guess, solution, i))
}

/// A displayed row shows a win when every one of its cells holds a
/// `CORRECT` verdict.
pub open spec fn row_all_correct(row: Seq<CharState>) -> bool {
    forall|j: int| 0 <= j < row.len() ==> (#[trigger] row[j]) is CORRECT
}

/// A scored row shows a win exactly when the guess it was scored from
/// matched the solution at every position.
pub proof fn lemma_row_all_correct_iff(guess: Seq<char>, solution: Seq<char>)
    ensures
        row_all_correct(score_row(guess, solution)) <==> all_correct(guess, solution),
{
    if all_correct(guess, solution) {
        assert forall|j: int| 0 <= j < score_row(guess, solution).len() implies (#[trigger] score_row(
            guess,
            solution,
        )[j]) is CORRECT by {
            assert(guess[j] == sol_char(solution, j));
        }
    }
    if row_all_correct(score_row(guess, solution)) {
        assert forall|j: int| 0 <= j < guess.len() implies guess[j] == sol_char(solution, j) by {
            assert(score_row(guess, solution)[j] is CORRECT);
        }
    }
}

/// Whether the word `w` is a member of the pool.
pub open spec fn in_pool(w: Seq<char>, pool: Seq<String>) -> bool {
    exists|i: int| 0 <= i < pool.len() && pool[i]@ == w
}

/// A buffer is a valid guess when it has exactly `NUM_CHARS` characters
/// and is a member of the guess pool.
pub open spec fn valid_guess(guess: Seq<char>, pool: Seq<String>) -> bool {
    guess.len() == NUM_CHARS && in_pool(guess, pool)
}

/// Whether `solution` contains the character `c` anywhere.
fn contains_char(solution: &String, c: char) -> (r: bool)
    ensures
        r == solution@.contains(c),
{
    let s: &str = solution.as_str();
    let len: usize = s.unicode_len();
    let mut i: usize = 0;
    while i < len
        invariant
            i <= len,
            len == s@.len(),
            s@ == solution@,
            forall|j: int| 0 <= j < i ==> s@[j] != c,
        decreases len - i,
    {
        if s.get_char(i) == c {
            return true;
        }
        i = i + 1;
    }
    false
}

/// Make sure the user's guess is a valid word: exactly `NUM_CHARS`
/// characters long and present in the pool of accepted words.
pub fn is_valid_guess(guess_buf: &String, all_words: &Vec<String>) -> (r: bool)
    ensures
        r == valid_guess(guess_buf@, all_words@),
{
    if guess_buf.as_str().unicode_len() != NUM_CHARS {
        return false;
    }
    let n: usize = all_words.len();
    let mut i: usize = 0;
    while i < n
        invariant
            i <= n,
            n == all_words@.len(),
            guess_buf@.len() == NUM_CHARS,
            forall|j: int| 0 <= j < i ==> all_words@[j]@ != guess_buf@,
        decreases n - i,
    {
        if *guess_buf == all_words[i] {
            proof {
                assert(all_words@[i as int]@ == guess_buf@);
            }
            return true;
        }
        i = i + 1;
    }
    false
}

/// Check the correctness of a user's guess: write one verdict per guess
/// character into the guess field, and report whether every position was
/// correct.
///
/// Cells of the field beyond the guess's length are left untouched, and
/// solution positions beyond the solution's length never match.
pub fn check_guess(
    guess_buf: &String,
    guess_field: &mut GameComponent<Vec<CharState>>,
    solution: &String,
) -> (is_won: bool)
    requires
        guess_buf@.len() <= old(guess_field).component@.len(),
    ensures
        final(guess_field).component@.len() == old(guess_field).component@.len(),
        forall|i: int|
            0 <= i < guess_buf@.len() ==> final(guess_field).component@[i] == verdict(
                guess_buf@,
                solution@,
                i,
            ),
        forall|i: int|
            guess_buf@.len() <= i < old(guess_field).component@.len() ==> final(
                guess_field
            ).component@[i] == old(guess_field).component@[i],
        guess_buf@.len() == old(guess_field).component@.len() ==> final(guess_field).component@
            == score_row(guess_buf@, solution@),
        final(guess_field).ypos == old(guess_field).ypos,
        final(guess_field).xpos == old(guess_field).xpos,
        is_won == all_correct(guess_buf@, solution@),
{
    let g: &str = guess_buf.as_str();
    let s: &str = solution.as_str();
    let glen: usize = g.unicode_len();
    let slen: usize = s.unicode_len();
    let mut is_won: bool = true;
    let mut i: usize = 0;
    while i < glen
        invariant
            i <= glen,
            glen == guess_buf@.len(),
            slen == solution@.len(),
            g@ == guess_buf@,
            s@ == solution@,
            glen <= guess_field.component@.len(),
            guess_field.component@.len() == old(guess_field).component@.len(),
            forall|j: int|
                0 <= j < i ==> guess_field.component@[j] == verdict(guess_buf@, solution@, j),
            forall|j: int|
                i <= j < old(guess_field).component@.len() ==> guess_field.component@[j] == old(
                    guess_field,
                ).component@[j],
            guess_field.ypos == old(guess_field).ypos,
            guess_field.xpos == old(guess_field).xpos,
            is_won == (forall|j: int| 0 <= j < i ==> guess_buf@[j] == sol_char(solution@, j)),
        decreases glen - i,
    {
        let guess_char: char = g.get_char(i);
        let answer_char: char = if i < slen {
            s.get_char(i)
        } else {
            '_'
        };
        if guess_char == answer_char {
            guess_field.component[i] = CharState::CORRECT(guess_char);
        } else if contains_char(solution, guess_char) {
            guess_field.component[i] = CharState::EXISTS(guess_char);
            is_won = false;
        } else {
            guess_field.component[i] = CharState::WRONG(guess_char);
            is_won = false;
        }
        i = i + 1;
    }
    proof {
        if guess_buf@.len() == old(guess_field).component@.len() {
            assert(guess_field.component@ =~= score_row(guess_buf@, solution@));
        }
    }
    is_won
}

/// The contents of a guess row that has not been submitted yet: one
/// `EMPTY` cell per character position.
pub open spec fn empty_row() -> Seq<CharState> {
    Seq::new(NUM_CHARS as nat, |i: int| CharState::EMPTY)
}

/// Build a fresh all-`EMPTY` guess row.
pub(crate) fn empty_row_vec() -> (v: Vec<CharState>)
    ensures
        v@ == empty_row(),
{
    let mut v: Vec<CharState> = Vec::new();
    let mut i: usize = 0;
    while i < NUM_CHARS
        invariant
            i <= NUM_CHARS,
            v@.len() == i,
            forall|j: int| 0 <= j < i ==> v@[j] == CharState::EMPTY,
        decreases NUM_CHARS - i,
    {
        v.push(CharState::EMPTY);
        i = i + 1;
    }
    proof {
        assert(v@ =~= empty_row());
    }
    v
}

/// Relies on rand's `IndexedRandom::choose`: on a non-empty slice it
/// returns `Some` of one element of the slice.
#[verifier::external_body]
pub(crate) fn pick_solution(solutions: &Vec<String>) -> (r: String)
    requires
        solutions@.len() > 0,
    ensures
        in_pool(r@, solutions@),
{
    solutions.choose(&mut rand::rng()).unwrap().to_string()
}

/// Reset game elements so the game can be replayed: every guess row is
/// emptied, the guess buffer is cleared, and a new solution is drawn
/// from the solution pool. Screen positions are kept as they are.
pub fn reset_game(
    prev_guesses: &mut Vec<GameComponent<Vec<CharState>>>,
    guess_buf: &mut GameComponent<String>,
    solution: &mut String,
    solutions: &Vec<String>,
)
    requires
        solutions@.len() > 0,
    ensures
        final(prev_guesses)@.len() == old(prev_guesses)@.len(),
        forall|i: int|
            0 <= i < old(prev_guesses)@.len() ==> {
                &&& final(prev_guesses)@[i].component@ == empty_row()
                &&& final(prev_guesses)@[i].ypos == old(prev_guesses)@[i].ypos
                &&& final(prev_guesses)@[i].xpos == old(prev_guesses)@[i].xpos
            },
        final(guess_buf).component@.len() == 0,
        final(guess_buf).ypos == old(guess_buf).ypos,
        final(guess_buf).xpos == old(guess_buf).xpos,
        in_pool(final(solution)@, solutions@),
{
    let n: usize = prev_guesses.len();
    let mut i: usize = 0;
    while i < n
        invariant
            i <= n,
            n == prev_guesses@.len(),
            prev_guesses@.len() == old(prev_guesses)@.len(),
            forall|j: int|
                0 <= j < i ==> {
                    &&& prev_guesses@[j].component@ == empty_row()
                    &&& prev_guesses@[j].ypos == old(prev_guesses)@[j].ypos
                    &&& prev_guesses@[j].xpos == old(prev_guesses)@[j].xpos
                },
            forall|j: int| i <= j < n ==> prev_guesses@[j] == old(prev_guesses)@[j],
        decreases n - i,
    {
        let y: i32 = prev_guesses[i].ypos;
        let x: i32 = prev_guesses[i].xpos;
        prev_guesses[i] = GameComponent { component: empty_row_vec(), ypos: y, xpos: x };
        i = i + 1;
    }
    guess_buf.component.clear();
    *solution = pick_solution(solutions);
}

} // verus!
