//! Tests of the round state machine and the menu state machine.

use rudle::events::InputEvent;
use rudle::game::{CharState, NUM_CHARS, NUM_GUESSES};
use rudle::menu::{Focus, MenuAction, MenuState};
use rudle::round::RoundState;

fn words(list: &[&str]) -> Vec<String> {
    list.iter().map(|w| w.to_string()).collect()
}

fn type_word(round: &mut RoundState, word: &str) {
    for c in word.chars() {
        round.edit(InputEvent::Letter(c));
    }
}

#[test]
fn new_round_is_fresh() {
    let solutions = words(&["crane"]);
    let round = RoundState::new(&solutions);
    assert_eq!(round.cur_guess, 0);
    assert!(!round.is_won);
    assert_eq!(round.prev_guesses.len(), NUM_GUESSES);
    for row in &round.prev_guesses {
        assert_eq!(row.component, vec![CharState::EMPTY; NUM_CHARS]);
    }
    assert_eq!(round.guess_buf.component, "");
    // the pool holds one word, so the draw must have picked it
    assert_eq!(round.solution, "crane");
}

#[test]
fn edit_appends_and_backspaces() {
    let solutions = words(&["crane"]);
    let mut round = RoundState::new(&solutions);
    type_word(&mut round, "cra");
    assert_eq!(round.guess_buf.component, "cra");
    round.edit(InputEvent::Backspace);
    assert_eq!(round.guess_buf.component, "cr");
    round.edit(InputEvent::Other);
    round.edit(InputEvent::NavigateUp);
    assert_eq!(round.guess_buf.component, "cr");
}

#[test]
fn edit_caps_buffer_at_word_length() {
    let solutions = words(&["crane"]);
    let mut round = RoundState::new(&solutions);
    type_word(&mut round, "abcdefg");
    assert_eq!(round.guess_buf.component, "abcde");
}

#[test]
fn edit_ignores_non_lowercase_input() {
    let solutions = words(&["crane"]);
    let mut round = RoundState::new(&solutions);
    round.edit(InputEvent::Letter('A'));
    round.edit(InputEvent::Letter('!'));
    round.edit(InputEvent::Letter('a'));
    assert_eq!(round.guess_buf.component, "a");
}

#[test]
fn backspace_on_empty_buffer_is_noop() {
    let solutions = words(&["crane"]);
    let mut round = RoundState::new(&solutions);
    round.edit(InputEvent::Backspace);
    assert_eq!(round.guess_buf.component, "");
}

#[test]
fn submit_rejects_invalid_word_without_change() {
    let solutions = words(&["crane"]);
    let all_words = words(&["crane", "slate"]);
    let mut round = RoundState::new(&solutions);
    type_word(&mut round, "zzzzz");
    let accepted = round.submit(&all_words);
    assert!(!accepted);
    assert_eq!(round.cur_guess, 0);
    assert_eq!(round.guess_buf.component, "zzzzz");
    assert_eq!(round.prev_guesses[0].component, vec![CharState::EMPTY; NUM_CHARS]);
}

#[test]
fn submit_scores_row_and_clears_buffer() {
    let solutions = words(&["crane"]);
    let all_words = words(&["crane", "crate"]);
    let mut round = RoundState::new(&solutions);
    type_word(&mut round, "crate");
    let accepted = round.submit(&all_words);
    assert!(accepted);
    assert_eq!(round.cur_guess, 1);
    assert!(!round.is_won);
    assert_eq!(round.guess_buf.component, "");
    assert_eq!(
        round.prev_guesses[0].component,
        vec![
            CharState::CORRECT('c'),
            CharState::CORRECT('r'),
            CharState::CORRECT('a'),
            CharState::WRONG('t'),
            CharState::CORRECT('e'),
        ]
    );
}

#[test]
fn six_rejected_then_accepted_submissions_exhaust_the_round() {
    let solutions = words(&["crane"]);
    let all_words = words(&["crane", "slate"]);
    let mut round = RoundState::new(&solutions);
    for turn in 0..NUM_GUESSES {
        // a rejected submission first: not in the pool
        type_word(&mut round, "zzzzz");
        assert!(!round.submit(&all_words));
        assert_eq!(round.cur_guess, turn);
        for _ in 0..NUM_CHARS {
            round.edit(InputEvent::Backspace);
        }
        // then an accepted one that does not solve
        type_word(&mut round, "slate");
        assert!(round.submit(&all_words));
        assert_eq!(round.cur_guess, turn + 1);
    }
    assert!(!round.is_won);
    assert_eq!(round.cur_guess, NUM_GUESSES);
    // the round is exhausted: a further submission of a valid word is a no-op
    type_word(&mut round, "crane");
    assert_eq!(round.guess_buf.component, "");
    round.guess_buf.component = "crane".to_string();
    assert!(!round.submit(&all_words));
    assert_eq!(round.cur_guess, NUM_GUESSES);
    assert!(!round.is_won);
}

#[test]
fn winning_submission_ends_the_round() {
    let solutions = words(&["crane"]);
    let all_words = words(&["crane", "slate"]);
    let mut round = RoundState::new(&solutions);
    type_word(&mut round, "crane");
    assert!(round.submit(&all_words));
    assert!(round.is_won);
    assert_eq!(round.cur_guess, 1);
    // further submissions and edits are no-ops
    round.guess_buf.component = "slate".to_string();
    assert!(!round.submit(&all_words));
    assert_eq!(round.cur_guess, 1);
    round.edit(InputEvent::Letter('x'));
    round.edit(InputEvent::Backspace);
    assert_eq!(round.guess_buf.component, "slate");
}

#[test]
fn reset_yields_fresh_playing_state() {
    let solutions = words(&["crane"]);
    let all_words = words(&["crane", "slate"]);
    // from a won state
    let mut round = RoundState::new(&solutions);
    type_word(&mut round, "crane");
    assert!(round.submit(&all_words));
    assert!(round.is_won);
    round.reset(&solutions);
    assert_eq!(round.cur_guess, 0);
    assert!(!round.is_won);
    for row in &round.prev_guesses {
        assert_eq!(row.component, vec![CharState::EMPTY; NUM_CHARS]);
    }
    assert_eq!(round.guess_buf.component, "");
    assert_eq!(round.solution, "crane");
    // from a mid-round state with a half-typed buffer
    type_word(&mut round, "sla");
    round.reset(&solutions);
    assert_eq!(round.cur_guess, 0);
    assert_eq!(round.guess_buf.component, "");
}

#[test]
fn navigation_toggles_between_field_and_buttons() {
    let solutions = words(&["crane"]);
    let all_words = words(&["crane"]);
    let mut menu = MenuState::new(&solutions);
    assert_eq!(menu.focus, Focus::GuessField);
    assert_eq!(menu.handle_event(InputEvent::NavigateDown, &all_words, &solutions), MenuAction::Continue);
    assert_eq!(menu.focus, Focus::ResetButton);
    assert_eq!(menu.handle_event(InputEvent::NavigateUp, &all_words, &solutions), MenuAction::Continue);
    assert_eq!(menu.focus, Focus::GuessField);
}

#[test]
fn navigation_cycles_buttons_only() {
    let solutions = words(&["crane"]);
    let all_words = words(&["crane"]);
    let mut menu = MenuState::new(&solutions);
    // horizontal navigation does nothing on the guess field
    menu.handle_event(InputEvent::NavigateLeft, &all_words, &solutions);
    assert_eq!(menu.focus, Focus::GuessField);
    menu.handle_event(InputEvent::NavigateDown, &all_words, &solutions);
    assert_eq!(menu.focus, Focus::ResetButton);
    menu.handle_event(InputEvent::NavigateRight, &all_words, &solutions);
    assert_eq!(menu.focus, Focus::QuitButton);
    menu.handle_event(InputEvent::NavigateLeft, &all_words, &solutions);
    assert_eq!(menu.focus, Focus::ResetButton);
}

#[test]
fn confirm_on_quit_button_signals_quit() {
    let solutions = words(&["crane"]);
    let all_words = words(&["crane"]);
    let mut menu = MenuState::new(&solutions);
    menu.handle_event(InputEvent::NavigateDown, &all_words, &solutions);
    menu.handle_event(InputEvent::NavigateRight, &all_words, &solutions);
    assert_eq!(menu.focus, Focus::QuitButton);
    assert_eq!(menu.handle_event(InputEvent::Confirm, &all_words, &solutions), MenuAction::Quit);
    assert_eq!(menu.focus, Focus::QuitButton);
}

#[test]
fn confirm_on_reset_button_rebuilds_round() {
    let solutions = words(&["crane"]);
    let all_words = words(&["crane", "slate"]);
    let mut menu = MenuState::new(&solutions);
    for c in "slate".chars() {
        menu.handle_event(InputEvent::Letter(c), &all_words, &solutions);
    }
    menu.handle_event(InputEvent::Confirm, &all_words, &solutions);
    assert_eq!(menu.round.cur_guess, 1);
    menu.handle_event(InputEvent::NavigateDown, &all_words, &solutions);
    assert_eq!(
        menu.handle_event(InputEvent::Confirm, &all_words, &solutions),
        MenuAction::ResetRequested
    );
    assert_eq!(menu.focus, Focus::GuessField);
    assert_eq!(menu.round.cur_guess, 0);
    assert_eq!(menu.round.guess_buf.component, "");
    for row in &menu.round.prev_guesses {
        assert_eq!(row.component, vec![CharState::EMPTY; NUM_CHARS]);
    }
}

#[test]
fn confirm_on_field_submits_and_moves_focus_on_win() {
    let solutions = words(&["crane"]);
    let all_words = words(&["crane"]);
    let mut menu = MenuState::new(&solutions);
    for c in "crane".chars() {
        menu.handle_event(InputEvent::Letter(c), &all_words, &solutions);
    }
    assert_eq!(menu.handle_event(InputEvent::Confirm, &all_words, &solutions), MenuAction::Continue);
    assert!(menu.round.is_won);
    assert_eq!(menu.focus, Focus::ResetButton);
}

#[test]
fn confirm_with_invalid_word_is_silently_ignored() {
    let solutions = words(&["crane"]);
    let all_words = words(&["crane"]);
    let mut menu = MenuState::new(&solutions);
    for c in "zzzzz".chars() {
        menu.handle_event(InputEvent::Letter(c), &all_words, &solutions);
    }
    assert_eq!(menu.handle_event(InputEvent::Confirm, &all_words, &solutions), MenuAction::Continue);
    assert_eq!(menu.focus, Focus::GuessField);
    assert_eq!(menu.round.cur_guess, 0);
    assert_eq!(menu.round.guess_buf.component, "zzzzz");
}

#[test]
fn letters_are_ignored_while_a_button_has_focus() {
    let solutions = words(&["crane"]);
    let all_words = words(&["crane"]);
    let mut menu = MenuState::new(&solutions);
    menu.handle_event(InputEvent::NavigateDown, &all_words, &solutions);
    menu.handle_event(InputEvent::Letter('c'), &all_words, &solutions);
    assert_eq!(menu.round.guess_buf.component, "");
    assert_eq!(menu.focus, Focus::ResetButton);
}
