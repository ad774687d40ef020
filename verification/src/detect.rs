//! Detecting the Game Boy Player.
//!
//! While its splash screen is shown, a Game Boy Player reports all four
//! directions of the keypad as pressed at once, which no keypad can do. The
//! console watches the keypad for a fixed number of frames and takes one such
//! reading as proof that the player is there.

use vstd::prelude::*;

verus! {

/// The number of frames for which the keypad is watched.
pub const DETECTION_FRAMES: usize = 125;

/// The keypad reading with which a Game Boy Player makes itself known.
pub const KEYPAD_SENTINEL: u16 = 0x030F;

/// The display control word while the splash screen is shown: mode 0, background 0 on.
pub const SPLASH_DISPLAY_CONTROL: u16 = 0x0100;

/// The control word of background 0 while the splash screen is shown.
pub const SPLASH_BACKGROUND0_CONTROL: u16 = 0x0088;

/// Proof that a Game Boy Player answered the last detection.
///
/// Only a detection that saw the sentinel hands one out, and the rumble commands can
/// only be given through it.
#[non_exhaustive]
#[derive(Debug, PartialEq, Eq)]
pub struct GameBoyPlayer;

/// A detection in progress: the display words to put back when it ends, and what the
/// keypad has shown so far.
pub struct Detection {
    display_control: u16,
    background0_control: u16,
    taken: usize,
    detected: bool,
    readings: Ghost<Seq<u16>>,
}

impl Detection {
    #[verifier::type_invariant]
    spec fn inv(self) -> bool {
        &&& self.taken == self.readings@.len()
        &&& self.taken <= DETECTION_FRAMES
        &&& self.detected <==> self.readings@.contains(KEYPAD_SENTINEL)
    }

    /// The keypad readings taken so far, oldest first.
    pub closed spec fn view(self) -> Seq<u16> {
        self.readings@
    }

    /// The display control word that was in force when the detection began.
    pub closed spec fn saved_display_control(self) -> u16 {
        self.display_control
    }

    /// The control word of background 0 that was in force when the detection began.
    pub closed spec fn saved_background0_control(self) -> u16 {
        self.background0_control
    }

    /// Begins a detection, remembering the two display words that the splash screen
    /// is about to replace.
    pub fn begin(display_control: u16, background0_control: u16) -> (detection: Self)
        ensures
            detection@ == Seq::<u16>::empty(),
            detection.saved_display_control() == display_control,
            detection.saved_background0_control() == background0_control,
    {
        Detection {
            display_control,
            background0_control,
            taken: 0,
            detected: false,
            readings: Ghost(Seq::empty()),
        }
    }

    /// Whether every frame has been sampled.
    pub fn is_complete(&self) -> (complete: bool)
        ensures
            complete == (self@.len() == DETECTION_FRAMES),
            self@.len() <= DETECTION_FRAMES,
    {
        proof {
            use_type_invariant(self);
        }
        self.taken == DETECTION_FRAMES
    }

    /// The number of frames sampled so far.
    pub fn frame(&self) -> (frame: usize)
        ensures
            frame == self@.len(),
            frame <= DETECTION_FRAMES,
    {
        proof {
            use_type_invariant(self);
        }
        self.taken
    }

    /// Records the keypad reading of one more frame.
    pub fn sample(&mut self, keys: u16)
        requires
            old(self)@.len() < DETECTION_FRAMES,
        ensures
            final(self)@ == old(self)@.push(keys),
            final(self).saved_display_control() == old(self).saved_display_control(),
            final(self).saved_background0_control() == old(self).saved_background0_control(),
    {
        proof {
            use_type_invariant(&*self);
        }
        let ghost readings = self.readings@.push(keys);
        assert(readings.contains(KEYPAD_SENTINEL) <==> self.readings@.contains(KEYPAD_SENTINEL)
            || keys == KEYPAD_SENTINEL) by {
            if self.readings@.contains(KEYPAD_SENTINEL) {
                let i = choose|i: int| 0 <= i < self.readings@.len() && self.readings@[i] == KEYPAD_SENTINEL;
                assert(readings[i] == KEYPAD_SENTINEL);
            }
            if keys == KEYPAD_SENTINEL {
                assert(readings[readings.len() - 1] == KEYPAD_SENTINEL);
            }
        }
        *self = Detection {
            display_control: self.display_control,
            background0_control: self.background0_control,
            taken: self.taken + 1,
            detected: self.detected || keys == KEYPAD_SENTINEL,
            readings: Ghost(readings),
        };
    }

    /// The display control word to put back when the detection ends.
    pub fn display_control(&self) -> (word: u16)
        ensures
            word == self.saved_display_control(),
    {
        self.display_control
    }

    /// The control word of background 0 to put back when the detection ends.
    pub fn background0_control(&self) -> (word: u16)
        ensures
            word == self.saved_background0_control(),
    {
        self.background0_control
    }

    /// Ends a complete detection: the player is there if and only if some frame
    /// showed the sentinel.
    pub fn finish(self) -> (player: Option<GameBoyPlayer>)
        requires
            self@.len() == DETECTION_FRAMES,
        ensures
            player == if self@.contains(KEYPAD_SENTINEL) {
                Some(GameBoyPlayer)
            } else {
                None
            },
    {
        proof {
            use_type_invariant(&self);
        }
        if self.detected {
            Some(GameBoyPlayer)
        } else {
            None
        }
    }
}

} // verus!
