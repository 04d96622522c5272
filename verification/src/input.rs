//! The keyboard event source: a bounded first-in-first-out queue filled by
//! the host (in the machine itself, by the keyboard interrupt) and read by
//! the shell and by applications.

use vstd::prelude::*;

verus! {

/// The modifier keys a key event carries.
#[derive(Clone, Copy, Debug, PartialEq, Eq, Structural)]
pub struct KeyModifiers {
    pub ctrl: bool,
    pub shift: bool,
}

impl KeyModifiers {
    pub fn none() -> (r: Self)
        ensures
            r == (KeyModifiers { ctrl: false, shift: false }),
    {
        KeyModifiers { ctrl: false, shift: false }
    }

    pub fn is_ctrl_pressed(&self) -> (r: bool)
        ensures
            r == self.ctrl,
    {
        self.ctrl
    }

    pub fn is_shift_pressed(&self) -> (r: bool)
        ensures
            r == self.shift,
    {
        self.shift
    }
}

/// One keyboard event: a scan-code-derived identifier, the character it
/// resolved to if any, and the modifiers held with it.
#[derive(Clone, Copy, Debug, PartialEq, Eq, Structural)]
pub struct Key {
    pub id: u8,
    pub character: Option<char>,
    pub modifiers: KeyModifiers,
}

impl Key {
    /// A plain character key without modifiers.
    pub fn from_char(c: char) -> (r: Self)
        ensures
            r == (Key { id: 0, character: Some(c), modifiers: KeyModifiers { ctrl: false, shift: false } }),
    {
        Key { id: 0, character: Some(c), modifiers: KeyModifiers::none() }
    }

    pub fn key_modifiers(&self) -> (r: KeyModifiers)
        ensures
            r == self.modifiers,
    {
        self.modifiers
    }

    /// The character the event resolved to, if any.
    pub fn to_char(&self) -> (r: Option<char>)
        ensures
            r == self.character,
    {
        self.character
    }
}

/// How many events the queue holds before the interrupt handler drops new
/// ones.
pub const KEYBOARD_QUEUE_LIMIT: usize = 256;

/// The bounded keyboard event queue: one writer (the interrupt handler, here
/// the host feeding events in), one reader, first in first out.
pub struct Keyboard {
    events: Vec<Key>,
}

impl View for Keyboard {
    type V = Seq<Key>;

    closed spec fn view(&self) -> Seq<Key> {
        self.events@
    }
}

impl Keyboard {
    pub fn new() -> (r: Self)
        ensures
            r@ == Seq::<Key>::empty(),
    {
        Keyboard { events: Vec::new() }
    }

    pub fn len(&self) -> (r: usize)
        ensures
            r == self@.len(),
    {
        self.events.len()
    }

    /// Appends one event, or drops it when the queue is full.
    pub fn push_event(&mut self, key: Key)
        ensures
            old(self)@.len() < KEYBOARD_QUEUE_LIMIT ==> final(self)@ == old(self)@.push(key),
            old(self)@.len() >= KEYBOARD_QUEUE_LIMIT ==> final(self)@ == old(self)@,
    {
        if self.events.len() < KEYBOARD_QUEUE_LIMIT {
            self.events.push(key);
        }
    }

    /// Removes and returns the oldest event, without waiting.
    pub fn try_getch(&mut self) -> (r: Option<Key>)
        ensures
            old(self)@.len() == 0 ==> r is None && final(self)@ == old(self)@,
            old(self)@.len() > 0 ==> r == Some(old(self)@.first()) && final(self)@ == old(
                self,
            )@.drop_first(),
    {
        if self.events.len() == 0 {
            None
        } else {
            let k = self.events.remove(0);
            proof {
                assert(self.events@ =~= old(self).events@.drop_first());
            }
            Some(k)
        }
    }
}

} // verus!
