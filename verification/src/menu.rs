//! The menu state machine: it routes input events between the guess
//! field and the action buttons, drives the round state machine, and
//! surfaces reset and quit requests to the embedding program.

use crate::events::InputEvent;
use crate::game::{valid_guess, NUM_GUESSES};
use crate::round::{pool_wf, RoundState};
use vstd::prelude::*;

verus! {

/// The interactive element that currently has input focus. Exactly one
/// element has focus at a time.
#[derive(Debug, Clone, Copy, PartialEq, Eq)]
pub enum Focus {
    GuessField,
    ResetButton,
    QuitButton,
}

/// What the embedding program must do after one event was handled:
/// keep going, redraw everything because the round was rebuilt, or
/// terminate.
#[derive(Debug, Clone, Copy, PartialEq, Eq)]
pub enum MenuAction {
    Continue,
    ResetRequested,
    Quit,
}

/// Vertical navigation toggles between the guess field and the button
/// row; landing on the button row puts focus on the reset button.
pub open spec fn toggled_focus(f: Focus) -> Focus {
    match f {
        Focus::GuessField => Focus::ResetButton,
        _ => Focus::GuessField,
    }
}

/// Horizontal navigation cycles between the two buttons and does
/// nothing while the guess field has focus.
pub open spec fn cycled_focus(f: Focus) -> Focus {
    match f {
        Focus::ResetButton => Focus::QuitButton,
        Focus::QuitButton => Focus::ResetButton,
        Focus::GuessField => Focus::GuessField,
    }
}

/// The menu state machine: the current focus plus the round it drives.
pub struct MenuState {
    pub focus: Focus,
    pub round: RoundState,
}

impl MenuState {
    /// How one `handle_event` call relates the menu before it to the
    /// menu after it.
    ///
    /// Vertical navigation toggles the focus and horizontal navigation
    /// cycles it through the buttons, both without touching the round.
    /// Confirm quits on the quit button; on the reset button it rebuilds
    /// the round fresh and focuses the guess field; on the guess field
    /// it submits the buffer, and focus moves to the button row exactly
    /// when the round stops playing. Every other event is an edit of
    /// the buffer while the guess field has focus, and is ignored while
    /// a button has it.
    pub open spec fn menu_rel(
        pre: MenuState,
        post: MenuState,
        ev: InputEvent,
        guess_pool: Seq<String>,
        solution_pool: Seq<String>,
        action: MenuAction,
    ) -> bool {
        match ev {
            InputEvent::NavigateUp | InputEvent::NavigateDown => {
                &&& post.round == pre.round
                &&& post.focus == toggled_focus(pre.focus)
                &&& action == MenuAction::Continue
            },
            InputEvent::NavigateLeft | InputEvent::NavigateRight => {
                &&& post.round == pre.round
                &&& post.focus == cycled_focus(pre.focus)
                &&& action == MenuAction::Continue
            },
            InputEvent::Confirm => match pre.focus {
                Focus::QuitButton => {
                    &&& post == pre
                    &&& action == MenuAction::Quit
                },
                Focus::ResetButton => {
                    &&& post.round.wf()
                    &&& post.round.fresh(solution_pool)
                    &&& post.round.playing()
                    &&& RoundState::same_layout(pre.round, post.round)
                    &&& post.focus == Focus::GuessField
                    &&& action == MenuAction::ResetRequested
                },
                Focus::GuessField => {
                    &&& RoundState::submit_rel(
                        pre.round,
                        post.round,
                        guess_pool,
                        pre.round.playing() && valid_guess(
                            pre.round.guess_buf.component@,
                            guess_pool,
                        ),
                    )
                    &&& post.focus == (if post.round.playing() {
                        Focus::GuessField
                    } else {
                        Focus::ResetButton
                    })
                    &&& action == MenuAction::Continue
                },
            },
            _ => match pre.focus {
                Focus::GuessField => {
                    &&& RoundState::edit_rel(pre.round, post.round, ev)
                    &&& post.focus == pre.focus
                    &&& action == MenuAction::Continue
                },
                _ => {
                    &&& post == pre
                    &&& action == MenuAction::Continue
                },
            },
        }
    }

    /// Start the menu with a fresh round and focus on the guess field.
    pub fn new(solutions: &Vec<String>) -> (menu: MenuState)
        requires
            solutions@.len() > 0,
            pool_wf(solutions@),
        ensures
            menu.round.wf(),
            menu.round.fresh(solutions@),
            menu.round.playing(),
            menu.focus == Focus::GuessField,
    {
        MenuState { focus: Focus::GuessField, round: RoundState::new(solutions) }
    }

    /// Handle one abstract input event, mutating the focus and the
    /// round as `menu_rel` describes, and tell the embedding program
    /// what to do next.
    pub fn handle_event(
        &mut self,
        ev: InputEvent,
        all_words: &Vec<String>,
        solutions: &Vec<String>,
    ) -> (action: MenuAction)
        requires
            old(self).round.wf(),
            solutions@.len() > 0,
            pool_wf(solutions@),
        ensures
            final(self).round.wf(),
            MenuState::menu_rel(*old(self), *final(self), ev, all_words@, solutions@, action),
    {
        match ev {
            InputEvent::NavigateUp | InputEvent::NavigateDown => {
                self.focus = match self.focus {
                    Focus::GuessField => Focus::ResetButton,
                    _ => Focus::GuessField,
                };
                MenuAction::Continue
            },
            InputEvent::NavigateLeft | InputEvent::NavigateRight => {
                self.focus = match self.focus {
                    Focus::ResetButton => Focus::QuitButton,
                    Focus::QuitButton => Focus::ResetButton,
                    Focus::GuessField => Focus::GuessField,
                };
                MenuAction::Continue
            },
            InputEvent::Confirm => match self.focus {
                Focus::QuitButton => MenuAction::Quit,
                Focus::ResetButton => {
                    self.round.reset(solutions);
                    self.focus = Focus::GuessField;
                    MenuAction::ResetRequested
                },
                Focus::GuessField => {
                    let _accepted: bool = self.round.submit(all_words);
                    if self.round.is_won || self.round.cur_guess >= NUM_GUESSES {
                        self.focus = Focus::ResetButton;
                    } else {
                        self.focus = Focus::GuessField;
                    }
                    MenuAction::Continue
                },
            },
            _ => match self.focus {
                Focus::GuessField => {
                    self.round.edit(ev);
                    MenuAction::Continue
                },
                _ => MenuAction::Continue,
            },
        }
    }
}

} // verus!
