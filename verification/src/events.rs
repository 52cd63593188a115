//! Abstract input events handed to the core by the input adapter.

use vstd::prelude::*;

verus! {

/// One abstract input event. The input adapter translates raw key codes
/// into these before the core sees them; `Letter` carries alphabetic
/// input already normalized to lowercase, and anything the adapter does
/// not recognize arrives as `Other`.
#[derive(Debug, Clone, Copy, PartialEq, Eq)]
pub enum InputEvent {
    Letter(char),
    Backspace,
    NavigateUp,
    NavigateDown,
    NavigateLeft,
    NavigateRight,
    Confirm,
    Other,
}

} // verus!
