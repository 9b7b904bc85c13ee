//! The state of the input devices, as the managed runtime reads it: one byte
//! for each key and for each mouse button.

use vstd::prelude::*;

verus! {

/// The number of mouse buttons that are sampled.
pub const MOUSE_BUTTON_COUNT: usize = 7;

/// The number of keys that are sampled.
pub const KEY_COUNT: usize = 350;

/// What the native library says of one mouse button in this frame.
#[derive(Debug, Clone, Copy, PartialEq, Eq, Structural)]
pub struct ButtonSample {
    pub pressed: bool,
    pub released: bool,
    pub down: bool,
}

/// What the native library says of one key in this frame.
#[derive(Debug, Clone, Copy, PartialEq, Eq, Structural)]
pub struct KeySample {
    pub pressed: bool,
    pub released: bool,
    pub down: bool,
    pub up: bool,
}

/// The byte for a mouse button: 0 for pressed, 1 for released, 2 for down
/// and 3 for up, the first of them that holds.
pub open spec fn button_code(sample: ButtonSample) -> u8 {
    if sample.pressed {
        0
    } else if sample.released {
        1
    } else if sample.down {
        2
    } else {
        3
    }
}

/// The byte for a key: 0 for pressed, 1 for released, 2 for down, 3 for up,
/// the first of them that holds, and 4 for a key that repeats, of which none
/// of them holds.
pub open spec fn key_code(sample: KeySample) -> u8 {
    if sample.pressed {
        0
    } else if sample.released {
        1
    } else if sample.down {
        2
    } else if sample.up {
        3
    } else {
        4
    }
}

/// The byte for a mouse button.
pub fn mouse_button_state(sample: ButtonSample) -> (code: u8)
    ensures
        code == button_code(sample),
{
    if sample.pressed {
        0
    } else if sample.released {
        1
    } else if sample.down {
        2
    } else {
        3
    }
}

/// The byte for a key.
pub fn key_state(sample: KeySample) -> (code: u8)
    ensures
        code == key_code(sample),
{
    if sample.pressed {
        0
    } else if sample.released {
        1
    } else if sample.down {
        2
    } else if sample.up {
        3
    } else {
        4
    }
}

/// The bytes for the mouse buttons, one for each sample and in their order.
pub fn get_mouse_button_states(samples: &Vec<ButtonSample>) -> (states: Vec<u8>)
    ensures
        states@ == samples@.map_values(|sample: ButtonSample| button_code(sample)),
{
    let mut states: Vec<u8> = Vec::new();
    let mut i: usize = 0;
    while i < samples.len()
        invariant
            i <= samples@.len(),
            states@ == samples@.take(i as int).map_values(
                |sample: ButtonSample| button_code(sample),
            ),
        decreases samples@.len() - i,
    {
        states.push(mouse_button_state(samples[i]));
        i = i + 1;
        proof {
            assert(states@ =~= samples@.take(i as int).map_values(
                |sample: ButtonSample| button_code(sample),
            ));
        }
    }
    proof {
        assert(samples@.take(i as int) =~= samples@);
    }
    states
}

/// The bytes for the keys, one for each sample and in their order.
pub fn get_keys_states(samples: &Vec<KeySample>) -> (states: Vec<u8>)
    ensures
        states@ == samples@.map_values(|sample: KeySample| key_code(sample)),
{
    let mut states: Vec<u8> = Vec::new();
    let mut i: usize = 0;
    while i < samples.len()
        invariant
            i <= samples@.len(),
            states@ == samples@.take(i as int).map_values(|sample: KeySample| key_code(sample)),
        decreases samples@.len() - i,
    {
        states.push(key_state(samples[i]));
        i = i + 1;
        proof {
            assert(states@ =~= samples@.take(i as int).map_values(
                |sample: KeySample| key_code(sample),
            ));
        }
    }
    proof {
        assert(samples@.take(i as int) =~= samples@);
    }
    states
}

} // verus!
