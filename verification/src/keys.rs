use vstd::prelude::*;

verus! {

/// A discrete key event, as the games consume it. The terminal front end maps
/// its own key-event type to this one; game logic never sees the terminal.
#[derive(Clone, Copy, PartialEq, Eq, Structural, Debug)]
pub enum Key {
    Char(char),
    Enter,
    Esc,
    Up,
    Down,
    Left,
    Right,
}

} // verus!
