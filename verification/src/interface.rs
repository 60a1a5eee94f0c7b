//! The devices the machine is wired to, as far as the machine and its host
//! exchange state through them: the display surface, the keypad latch and
//! the beeper.

use vstd::prelude::*;
use crate::display::blank_screen;
use crate::state::KEY_COUNT;

verus! {

/// Colour of a lit pixel in a rendered frame, as `0RGB`.
pub const PIXEL_ON: u32 = 0x00FF_FFFF;

/// Colour of a dark pixel in a rendered frame.
pub const PIXEL_OFF: u32 = 0;

/// A key of the host keyboard, as far as the keypad layout tells keys apart.
///
/// ```text
/// keyboard      keypad
/// 1 2 3 4       1 2 3 C
/// Q W E R       4 5 6 D
/// A S D F       7 8 9 E
/// Z X C V       A 0 B F
/// ```
#[derive(Clone, Copy, Debug, PartialEq, Eq, Structural)]
pub enum Key {
    Key1,
    Key2,
    Key3,
    Key4,
    Q,
    W,
    E,
    R,
    A,
    S,
    D,
    F,
    Z,
    X,
    C,
    V,
    /// Any key that the layout does not use.
    Other,
}

impl Key {
    /// The keypad key that this keyboard key stands for, if any.
    pub open spec fn spec_keypad_index(self) -> Option<usize> {
        match self {
            Key::Key1 => Some(0x1),
            Key::Key2 => Some(0x2),
            Key::Key3 => Some(0x3),
            Key::Key4 => Some(0xC),
            Key::Q => Some(0x4),
            Key::W => Some(0x5),
            Key::E => Some(0x6),
            Key::R => Some(0xD),
            Key::A => Some(0x7),
            Key::S => Some(0x8),
            Key::D => Some(0x9),
            Key::F => Some(0xE),
            Key::Z => Some(0xA),
            Key::X => Some(0x0),
            Key::C => Some(0xB),
            Key::V => Some(0xF),
            Key::Other => None,
        }
    }

    /// The keypad key that this keyboard key stands for, if any.
    #[verifier::when_used_as_spec(spec_keypad_index)]
    pub fn keypad_index(self) -> (index: Option<usize>)
        ensures
            index == self.spec_keypad_index(),
            index matches Some(k) ==> k < KEY_COUNT,
    {
        match self {
            Key::Key1 => Some(0x1),
            Key::Key2 => Some(0x2),
            Key::Key3 => Some(0x3),
            Key::Key4 => Some(0xC),
            Key::Q => Some(0x4),
            Key::W => Some(0x5),
            Key::E => Some(0x6),
            Key::R => Some(0xD),
            Key::A => Some(0x7),
            Key::S => Some(0x8),
            Key::D => Some(0x9),
            Key::F => Some(0xE),
            Key::Z => Some(0xA),
            Key::X => Some(0x0),
            Key::C => Some(0xB),
            Key::V => Some(0xF),
            Key::Other => None,
        }
    }
}

/// Whether one of the first `count` keys of `keys` stands for keypad key `index`.
pub open spec fn pressed_within(keys: Seq<Key>, count: int, index: int) -> bool {
    exists|j: int| 0 <= j < count && (#[trigger] keys[j]).keypad_index() == Some(index as usize)
}

/// One more key taken into account presses the keypad key it stands for and
/// no other.
proof fn lemma_pressed_within_step(keys: Seq<Key>, count: int)
    requires
        0 <= count < keys.len(),
    ensures
        forall|index: int|
            0 <= index < KEY_COUNT ==> (#[trigger] pressed_within(keys, count + 1, index) <==> (
            pressed_within(keys, count, index) || keys[count].keypad_index() == Some(
                index as usize,
            ))),
{
}

/// The keypad latch while exactly the keyboard keys `keys` are held down.
pub open spec fn keypad_of(keys: Seq<Key>) -> Seq<bool> {
    Seq::new(KEY_COUNT as nat, |index: int| pressed_within(keys, keys.len() as int, index))
}

/// The keypad latch with no key down.
pub open spec fn idle_keypad() -> Seq<bool> {
    Seq::new(KEY_COUNT as nat, |index: int| false)
}

/// The frame that shows `screen`: one colour per pixel, row by row.
pub open spec fn frame_of(screen: Seq<bool>) -> Seq<u32> {
    Seq::new(screen.len(), |index: int| if screen[index] { PIXEL_ON } else { PIXEL_OFF })
}

/// Display surface, keypad latch and beeper state.
pub struct Interface {
    /// The 64 by 32 pixels, row by row, `true` for a lit pixel.
    pub screen: [bool; 2048],
    /// One flag per keypad key, `true` while it is held down.
    pub keypad: [bool; 16],
    /// Whether the beeper was last told to sound.
    pub is_beeping: bool,
}

impl Interface {
    /// Devices at rest: blank screen, no key down, beeper off.
    pub fn new() -> (interface: Interface)
        ensures
            interface.screen@ == blank_screen(),
            interface.keypad@ == idle_keypad(),
            !interface.is_beeping,
    {
        Interface { screen: [false; 2048], keypad: [false; 16], is_beeping: false }
    }

    /// The frame to put on the host's window: one `0RGB` colour per pixel,
    /// row by row, white for lit and black for dark.
    pub fn render_screen(&self) -> (frame: Vec<u32>)
        ensures
            frame@ == frame_of(self.screen@),
    {
        let mut frame: Vec<u32> = Vec::with_capacity(2048);
        let mut index: usize = 0;
        while index < 2048
            invariant
                index <= 2048,
                frame@.len() == index,
                forall|p: int|
                    0 <= p < index ==> frame@[p] == if self.screen@[p] {
                        PIXEL_ON
                    } else {
                        PIXEL_OFF
                    },
            decreases 2048 - index,
        {
            let colour: u32 = if self.screen[index] { PIXEL_ON } else { PIXEL_OFF };
            frame.push(colour);
            index = index + 1;
        }
        frame
    }

    /// Overwrites the keypad latch from the keyboard keys now held down:
    /// a keypad key is down exactly if one of `keys` stands for it.
    pub fn process_keys(&mut self, keys: Vec<Key>)
        ensures
            final(self).keypad@ == keypad_of(keys@),
            final(self).screen == old(self).screen,
            final(self).is_beeping == old(self).is_beeping,
    {
        self.keypad = [false; 16];
        let mut j: usize = 0;
        while j < keys.len()
            invariant
                j <= keys.len(),
                self.screen == old(self).screen,
                self.is_beeping == old(self).is_beeping,
                forall|index: int|
                    0 <= index < 16 ==> self.keypad@[index] == pressed_within(
                        keys@,
                        j as int,
                        index,
                    ),
            decreases keys.len() - j,
        {
            match keys[j].keypad_index() {
                Some(index) => {
                    self.keypad[index] = true;
                },
                None => {},
            }
            proof {
                lemma_pressed_within_step(keys@, j as int);
            }
            j = j + 1;
        }
    }

    /// Tells the beeper whether it should sound and returns whether the host
    /// has to start a tone now: that is so exactly when the beeper is told to
    /// sound and was not sounding before.
    pub fn set_beep(&mut self, should_beep: bool) -> (start: bool)
        ensures
            start == (should_beep && !old(self).is_beeping),
            final(self).is_beeping == should_beep,
            final(self).screen == old(self).screen,
            final(self).keypad == old(self).keypad,
    {
        if should_beep == self.is_beeping {
            return false;
        }
        self.is_beeping = should_beep;
        should_beep
    }
}

} // verus!
