//! The keypad and its sticky keys.
//!
//! A terminal reports that a key was typed, never that it is held or
//! released. [`Keyboard`] therefore treats a key as down from the moment
//! its symbol arrives until [`KEY_TIME_MS`] milliseconds have passed without
//! it arriving again, so that an interpreter that polls the keypad once per
//! tick gets to see every key press.
//!
//! The keyboard does no input and reads no clock: whoever listens to the
//! terminal hands it each character together with the time on a monotonic
//! clock, in nanoseconds.

use vstd::prelude::*;
use crate::machine::NKEYS;

verus! {

/// The symbols of the keypad, each at the index of its key.
pub const KEYS: &'static str = "0123456789abcdef";

/// The symbol that asks the program to end.
pub const QUIT: char = 'q';

/// For how many milliseconds a key stays down after its symbol arrived.
pub const KEY_TIME_MS: u128 = 10;

/// Nanoseconds in a millisecond.
pub const NANOS_PER_MILLI: u128 = 1_000_000;

/// The key that carries the symbol `c`, if any does.
pub open spec fn key_of(c: char) -> Option<usize> {
    if exists|k: int| 0 <= k < NKEYS && KEYS@[k] == c {
        Some((choose|k: int| 0 <= k < NKEYS && KEYS@[k] == c) as usize)
    } else {
        None
    }
}

/// The whole milliseconds from the time `since` to the time `now`, both in
/// nanoseconds; none if `now` is the earlier.
pub open spec fn millis_between(since: u128, now: u128) -> int {
    if now >= since {
        (now - since) / (NANOS_PER_MILLI as int)
    } else {
        0
    }
}

/// The state of a keyboard.
#[verifier::ext_equal]
pub struct KeyboardState {
    /// For each key, whether it is down.
    pub keys: Seq<bool>,
    /// For each key, when its symbol last arrived.
    pub since_key_pressed: Seq<u128>,
    /// Whether the program was asked to end.
    pub exit: bool,
}

impl KeyboardState {
    /// The state has one entry per key.
    pub open spec fn wf(self) -> bool {
        &&& self.keys.len() == NKEYS
        &&& self.since_key_pressed.len() == NKEYS
    }

    /// No key is down and the program goes on.
    pub open spec fn initial() -> KeyboardState {
        KeyboardState {
            keys: Seq::new(NKEYS as nat, |k: int| false),
            since_key_pressed: Seq::new(NKEYS as nat, |k: int| 0u128),
            exit: false,
        }
    }

    /// Whether key `k` is down at the time `now` although its symbol has
    /// not arrived for more than [`KEY_TIME_MS`] milliseconds.
    pub open spec fn is_stale(self, k: int, now: u128) -> bool {
        self.keys[k] && millis_between(self.since_key_pressed[k], now) > KEY_TIME_MS
    }

    /// The state after the stale keys were released.
    pub open spec fn released(self, now: u128) -> KeyboardState {
        KeyboardState {
            keys: Seq::new(self.keys.len(), |k: int| self.keys[k] && !self.is_stale(k, now)),
            ..self
        }
    }

    /// The state after the symbol of key `k` arrived at the time `now`.
    pub open spec fn pressed(self, k: int, now: u128) -> KeyboardState {
        KeyboardState {
            keys: self.keys.update(k, true),
            since_key_pressed: self.since_key_pressed.update(k, now),
            ..self
        }
    }

    /// The state after the character `c` arrived at the time `now`:
    /// [`QUIT`] asks the program to end, the symbol of a key presses that
    /// key, and any other character changes nothing.
    pub open spec fn typed(self, c: char, now: u128) -> KeyboardState {
        if c == QUIT {
            KeyboardState { exit: true, ..self }
        } else {
            match key_of(c) {
                Some(k) => self.pressed(k as int, now),
                None => self,
            }
        }
    }
}

/// A keypad of sticky keys.
pub struct Keyboard {
    keys: [bool; NKEYS],
    since_key_pressed: [u128; NKEYS],
    exit: bool,
}

impl View for Keyboard {
    type V = KeyboardState;

    closed spec fn view(&self) -> KeyboardState {
        KeyboardState {
            keys: self.keys@,
            since_key_pressed: self.since_key_pressed@,
            exit: self.exit,
        }
    }
}

impl Keyboard {
    /// The state of every keyboard has one entry per key.
    pub proof fn lemma_view_wf(&self)
        ensures
            self@.wf(),
    {
    }

    /// A keyboard on which nothing was typed yet.
    pub fn new() -> (keyboard: Self)
        ensures
            keyboard@ == KeyboardState::initial(),
    {
        let keyboard = Keyboard {
            keys: [false; NKEYS],
            since_key_pressed: [0u128; NKEYS],
            exit: false,
        };
        assert(keyboard@ =~= KeyboardState::initial());
        keyboard
    }

    /// The key that carries the symbol `c`, if any does.
    pub fn key_to_idx(c: char) -> (idx: Option<usize>)
        ensures
            idx == key_of(c),
            idx matches Some(k) ==> k < NKEYS && KEYS@[k as int] == c,
            idx is None ==> !KEYS@.contains(c),
    {
        proof {
            reveal_strlit("0123456789abcdef");
        }
        if '0' <= c && c <= '9' {
            let k = (c as u32 - '0' as u32) as usize;
            assert(KEYS@[k as int] == c);
            Some(k)
        } else if 'a' <= c && c <= 'f' {
            let k = (c as u32 - 'a' as u32) as usize + 10;
            assert(KEYS@[k as int] == c);
            Some(k)
        } else {
            assert forall|j: int| 0 <= j < KEYS@.len() implies KEYS@[j] != c by {}
            None
        }
    }

    /// Whether key `idx` is down. There is no key beyond the last, and so
    /// none that is down.
    pub fn is_pressed(&self, idx: usize) -> (pressed: bool)
        ensures
            pressed == (idx < NKEYS && self@.keys[idx as int]),
    {
        if idx < NKEYS {
            return self.keys[idx];
        } else {
            return false;
        }
    }

    /// For each key, whether it is down.
    pub fn get_pressed(&self) -> (keys: [bool; NKEYS])
        ensures
            keys@ == self@.keys,
    {
        let mut keys = [false; NKEYS];
        for idx in 0..NKEYS
            invariant
                forall|k: int| 0 <= k < idx ==> keys[k] == self.keys[k],
        {
            keys[idx] = self.is_pressed(idx);
        }
        assert(keys@ =~= self@.keys);
        return keys;
    }

    /// Whether the program was asked to end.
    pub fn should_exit(&self) -> (exit: bool)
        ensures
            exit == self@.exit,
    {
        return self.exit;
    }

    /// Releases, at the time `now`, every key whose symbol has not arrived
    /// for more than [`KEY_TIME_MS`] milliseconds.
    pub fn release_stale(&mut self, now: u128)
        ensures
            final(self)@ == old(self)@.released(now),
    {
        for i in 0..NKEYS
            invariant
                self.since_key_pressed == old(self).since_key_pressed,
                self.exit == old(self).exit,
                forall|k: int|
                    0 <= k < i ==> self.keys[k] == (old(self).keys[k] && !old(self)@.is_stale(
                        k,
                        now,
                    )),
                forall|k: int| i <= k < NKEYS ==> self.keys[k] == old(self).keys[k],
        {
            let since = self.since_key_pressed[i];
            let millis = if now >= since {
                (now - since) / NANOS_PER_MILLI
            } else {
                0
            };
            if self.keys[i] && millis > KEY_TIME_MS {
                self.keys[i] = false;
            }
        }
        assert(self@ =~= old(self)@.released(now));
    }

    /// Takes in the character `c`, which arrived at the time `now`, and
    /// says whether it asked the program to end.
    pub fn on_char(&mut self, c: char, now: u128) -> (quit: bool)
        ensures
            final(self)@ == old(self)@.typed(c, now),
            quit == (c == QUIT),
    {
        if c == QUIT {
            self.exit = true;
            true
        } else {
            match Keyboard::key_to_idx(c) {
                Some(idx) => {
                    self.keys[idx] = true;
                    self.since_key_pressed[idx] = now;
                },
                None => (),
            };
            false
        }
    }
}

} // verus!
