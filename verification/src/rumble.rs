//! The command that the Game Boy Player is served on every poll.

use vstd::prelude::*;

verus! {

/// What the motor in the controller is told to do.
#[derive(Clone, Copy, Debug, PartialEq, Eq, Structural)]
pub enum GameBoyPlayerRumble {
    /// Let the motor run out.
    Stop,
    /// Brake the motor.
    HardStop,
    /// Turn the motor.
    Start,
}

impl GameBoyPlayerRumble {
    /// The word that stands for this command on the serial link.
    pub open spec fn spec_word(self) -> u32 {
        match self {
            GameBoyPlayerRumble::Stop => 0x4000_0004,
            GameBoyPlayerRumble::HardStop => 0x4000_0015,
            GameBoyPlayerRumble::Start => 0x4000_0026,
        }
    }

    /// The word that stands for this command on the serial link.
    #[verifier::when_used_as_spec(spec_word)]
    pub fn word(self) -> (word: u32)
        ensures
            word == self.spec_word(),
    {
        match self {
            GameBoyPlayerRumble::Stop => 0x4000_0004,
            GameBoyPlayerRumble::HardStop => 0x4000_0015,
            GameBoyPlayerRumble::Start => 0x4000_0026,
        }
    }
}

} // verus!
