//! Raw keys and the input events they resolve to.

use vstd::prelude::*;

verus! {

/// One key as the keyboard reports it.
#[derive(Debug, Clone, Copy, PartialEq, Eq, Structural)]
pub enum RawKey {
    Char(char),
    Backspace,
    Tab,
    Enter,
    Escape,
    /// Any other key: an invalid keystroke.
    Other,
}

/// A key the engine acts on.
#[derive(Debug, Clone, Copy, PartialEq, Eq, Structural)]
pub enum Input {
    Char(char),
    Backspace,
    Tab,
    Enter,
    Esc,
}

impl Input {
    /// The input event a raw key stands for, if it is a valid one.
    pub open spec fn of_key(key: RawKey) -> Option<Input> {
        match key {
            RawKey::Char(c) => Some(Input::Char(c)),
            RawKey::Backspace => Some(Input::Backspace),
            RawKey::Tab => Some(Input::Tab),
            RawKey::Enter => Some(Input::Enter),
            RawKey::Escape => Some(Input::Esc),
            RawKey::Other => None,
        }
    }

    /// Classifies one raw key.
    pub fn from_key(key: RawKey) -> (input: Option<Input>)
        ensures
            input == Input::of_key(key),
    {
        match key {
            RawKey::Char(c) => Some(Input::Char(c)),
            RawKey::Backspace => Some(Input::Backspace),
            RawKey::Tab => Some(Input::Tab),
            RawKey::Enter => Some(Input::Enter),
            RawKey::Escape => Some(Input::Esc),
            RawKey::Other => None,
        }
    }

    /// The number of invalid keys that `keys` holds from `from` on, up to the
    /// first valid key or the end.
    pub open spec fn invalid_run(keys: Seq<RawKey>, from: int) -> nat
        decreases keys.len() - from,
    {
        if 0 <= from < keys.len() && Input::of_key(keys[from]) is None {
            1 + Input::invalid_run(keys, from + 1)
        } else {
            0
        }
    }

    /// The input events that `keys` resolves to from `from` on, each with the
    /// number of invalid keys before it. Invalid keys after the last valid one
    /// belong to no event yet.
    pub open spec fn resolved(keys: Seq<RawKey>, from: int) -> Seq<(Input, nat)>
        decreases keys.len() - from,
    {
        let invalid = Input::invalid_run(keys, from);
        if 0 <= from && from + invalid < keys.len() {
            seq![(Input::of_key(keys[from + invalid])->0, invalid)] + Input::resolved(
                keys,
                from + invalid + 1,
            )
        } else {
            Seq::empty()
        }
    }

    /// Valid entries are any character, space, backspace, tab, enter and esc.
    /// Takes the keys read so far and the place to start at, and returns the
    /// first valid key from there on with the number of invalid keystrokes
    /// made before it, or `None` while no valid key has been read.
    pub fn is_valid(keys: &Vec<RawKey>, from: usize) -> (found: Option<(Input, u64)>)
        ensures
            match found {
                Some((input, invalid_keystrokes)) => {
                    &&& invalid_keystrokes == Input::invalid_run(keys@, from as int)
                    &&& from + invalid_keystrokes < keys.len()
                    &&& Input::of_key(keys[from + invalid_keystrokes]) == Some(input)
                    &&& forall|i: int|
                        from <= i < from + invalid_keystrokes ==> Input::of_key(#[trigger] keys[i])
                            is None
                },
                None => {
                    &&& from + Input::invalid_run(keys@, from as int) >= keys.len()
                    &&& forall|i: int|
                        from <= i < keys.len() ==> Input::of_key(#[trigger] keys[i]) is None
                },
            },
    {
        let mut invalid_keystrokes: u64 = 0;
        let mut at: usize = from;
        while at < keys.len()
            invariant
                from <= at,
                at - from == invalid_keystrokes,
                forall|i: int| from <= i < at ==> Input::of_key(#[trigger] keys[i]) is None,
                Input::invalid_run(keys@, from as int) == invalid_keystrokes + Input::invalid_run(
                    keys@,
                    at as int,
                ),
            decreases keys.len() - at,
        {
            match Input::from_key(keys[at]) {
                Some(input) => {
                    return Some((input, invalid_keystrokes));
                },
                None => {
                    invalid_keystrokes += 1;
                    at += 1;
                },
            }
        }
        None
    }
}

} // verus!
