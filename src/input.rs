//! Key presses and the navigation inputs they stand for.

use vstd::prelude::*;

verus! {

/// A key press, as far as the browser tells keys apart.
#[derive(Clone, Copy, Debug, PartialEq, Eq, Structural)]
pub enum Key {
    Char(char),
    Up,
    Down,
    Left,
    Right,
    Other,
}

/// The five inputs of the navigation controller, and one for every other key.
#[derive(Clone, Copy, Debug, PartialEq, Eq, Structural)]
pub enum Input {
    SetUp,
    SetDown,
    CardLeft,
    CardRight,
    Quit,
    Ignored,
}

/// The key bindings: `q` quits, up and down move through the sets, left and
/// right through the cards of the current set; every other key is ignored.
pub open spec fn input_of(k: Key) -> Input {
    match k {
        Key::Char(c) => if c == 'q' { Input::Quit } else { Input::Ignored },
        Key::Up => Input::SetUp,
        Key::Down => Input::SetDown,
        Key::Left => Input::CardLeft,
        Key::Right => Input::CardRight,
        Key::Other => Input::Ignored,
    }
}

/// The input that a key press stands for.
pub fn input_for_key(k: Key) -> (r: Input)
    ensures
        r == input_of(k),
{
    match k {
        Key::Char(c) => if c == 'q' { Input::Quit } else { Input::Ignored },
        Key::Up => Input::SetUp,
        Key::Down => Input::SetDown,
        Key::Left => Input::CardLeft,
        Key::Right => Input::CardRight,
        Key::Other => Input::Ignored,
    }
}

} // verus!
