//! An in-memory image of the console, as far as rumble is concerned.

use vstd::prelude::*;

use crate::rumble::GameBoyPlayerRumble;
use crate::sio::GameBoyPlayerSioState;

verus! {

/// What video memory (tiles, tile map and palette) holds.
#[derive(Clone, Copy, Debug, PartialEq, Eq, Structural)]
pub enum VideoMemory {
    /// Whatever the program has put there.
    Program,
    /// The splash screen that is shown during a detection.
    Splash,
    /// Nothing: a reset has cleared it.
    Cleared,
}

/// The registers that this crate reads and writes, and the two cells of its own that
/// the interrupt handler shares with the main loop.
#[derive(Clone, Copy, Debug, PartialEq, Eq, Structural)]
pub struct Console {
    /// The serial data register: the word last received, or the reply to it.
    pub serial_data: u32,
    /// The serial control register; bit 7 starts a transfer.
    pub serial_control: u16,
    /// The display control register.
    pub display_control: u16,
    /// The control register of background 0.
    pub background0_control: u16,
    /// The contents of video memory.
    pub video: VideoMemory,
    /// The data register of the cartridge's I/O port.
    pub gpio_data: u16,
    /// The direction register of the cartridge's I/O port.
    pub gpio_direction: u16,
    /// The register that opens the cartridge's I/O port.
    pub gpio_enable: u16,
    /// The rumble command that the Game Boy Player is served.
    pub rumble: GameBoyPlayerRumble,
    /// Where the exchange with the Game Boy Player stands.
    pub sio_state: GameBoyPlayerSioState,
}

impl Console {
    /// Whether the protocol state is a valid one.
    pub open spec fn wf(self) -> bool {
        self.sio_state.wf()
    }

    /// A console after power-on: registers clear, the motor stopped, no exchange begun.
    pub open spec fn initial() -> Self {
        Console {
            serial_data: 0,
            serial_control: 0,
            display_control: 0,
            background0_control: 0,
            video: VideoMemory::Cleared,
            gpio_data: 0,
            gpio_direction: 0,
            gpio_enable: 0,
            rumble: GameBoyPlayerRumble::Stop,
            sio_state: GameBoyPlayerSioState::initial(),
        }
    }

    /// A console after power-on.
    pub fn new() -> (console: Self)
        ensures
            console == Self::initial(),
            console.wf(),
    {
        Console {
            serial_data: 0,
            serial_control: 0,
            display_control: 0,
            background0_control: 0,
            video: VideoMemory::Cleared,
            gpio_data: 0,
            gpio_direction: 0,
            gpio_enable: 0,
            rumble: GameBoyPlayerRumble::Stop,
            sio_state: GameBoyPlayerSioState::new(),
        }
    }
}

} // verus!
