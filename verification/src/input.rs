use vstd::prelude::*;

verus! {

/// Number of keys of the keypad.
pub const NUM_KEYS_KEYPAD: u8 = 16;

/// The keys of the hexadecimal keypad as they were found at one moment:
/// for each of the sixteen keys, whether it is held down.
pub struct Keypad {
    pressed: [bool; 16],
}

impl View for Keypad {
    type V = Seq<bool>;

    closed spec fn view(&self) -> Seq<bool> {
        self.pressed@
    }
}

/// Whether `key` is the lowest key that `keys` shows as held down.
pub open spec fn lowest_pressed(keys: Seq<bool>, key: int) -> bool {
    &&& 0 <= key < keys.len()
    &&& keys[key]
    &&& forall|other: int| 0 <= other < key ==> !keys[other]
}

/// Whether `keys` shows no key as held down.
pub open spec fn none_pressed(keys: Seq<bool>) -> bool {
    forall|key: int| 0 <= key < keys.len() ==> !keys[key]
}

impl Keypad {
    /// A keypad with no key held down.
    pub fn new() -> (keypad: Keypad)
        ensures
            keypad@.len() == NUM_KEYS_KEYPAD,
            none_pressed(keypad@),
    {
        Keypad { pressed: [false;16] }
    }

    /// The keypad always has its sixteen keys.
    pub proof fn lemma_len(&self)
        ensures
            self@.len() == NUM_KEYS_KEYPAD,
    {
    }

    /// Records whether key `hex` is held down. A number that names no key
    /// changes nothing.
    pub fn set_key(&mut self, hex: u8, pressed: bool)
        ensures
            hex < NUM_KEYS_KEYPAD ==> final(self)@ == old(self)@.update(hex as int, pressed),
            hex >= NUM_KEYS_KEYPAD ==> final(self)@ == old(self)@,
    {
        if hex < NUM_KEYS_KEYPAD {
            self.pressed[hex as usize] = pressed;
        }
    }

    /// Whether key `hex` is held down. A number that names no key is never
    /// held down.
    pub fn is_key_pressed(&self, hex: u8) -> (pressed: bool)
        ensures
            pressed == (hex < NUM_KEYS_KEYPAD && self@[hex as int]),
    {
        hex < NUM_KEYS_KEYPAD && self.pressed[hex as usize]
    }

    /// The lowest key that is held down, or `None` when none is. The caller
    /// that has to wait for a key takes a fresh look at the keys and asks
    /// again for as long as the answer is `None`.
    pub fn wait_for_key_pressed(&self) -> (key: Option<u8>)
        ensures
            key is Some ==> lowest_pressed(self@, key->Some_0 as int),
            key is None ==> none_pressed(self@),
    {
        let mut hex: u8 = 0;
        while hex < NUM_KEYS_KEYPAD
            invariant
                hex <= NUM_KEYS_KEYPAD,
                self@.len() == NUM_KEYS_KEYPAD,
                forall|other: int| 0 <= other < hex ==> !self@[other],
            decreases NUM_KEYS_KEYPAD - hex,
        {
            if self.is_key_pressed(hex) {
                return Some(hex);
            }
            hex += 1;
        }
        None
    }
}

} // verus!
