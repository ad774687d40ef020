//! Rumble through the Game Boy Player.

use vstd::prelude::*;

use crate::console::{Console, VideoMemory};
use crate::detect::{
    Detection, GameBoyPlayer, DETECTION_FRAMES, KEYPAD_SENTINEL, SPLASH_BACKGROUND0_CONTROL,
    SPLASH_DISPLAY_CONTROL,
};
use crate::rumble::GameBoyPlayerRumble;

verus! {

/// The bit of the serial control register that starts a transfer.
pub const TRANSFER_START: u16 = 0x0080;

/// The serial control word with the transfer started and its other bits as they were.
pub open spec fn armed(control: u16) -> u16 {
    control | TRANSFER_START
}

/// Starts a transfer in the given serial control word.
pub fn arm_transfer(control: u16) -> (word: u16)
    ensures
        word == armed(control),
{
    control | TRANSFER_START
}

impl Console {
    /// The console after the serial interrupt has been handled: the protocol state
    /// has moved on the word in the data register; a reply, if there is one, has taken
    /// that word's place and the transfer is started; all else is as it was.
    pub open spec fn interrupted(self) -> Self {
        let (state, reply) = self.sio_state.transition(self.serial_data, self.rumble);
        match reply {
            Some(word) => Console {
                sio_state: state,
                serial_data: word,
                serial_control: armed(self.serial_control),
                ..self
            },
            None => Console { sio_state: state, ..self },
        }
    }

    /// The console with the given rumble command stored, and all else as it was.
    pub open spec fn commanded(self, rumble: GameBoyPlayerRumble) -> Self {
        Console { rumble, ..self }
    }

    /// The console with a serial transfer started, and all else as it was.
    pub open spec fn updated(self) -> Self {
        Console { serial_control: armed(self.serial_control), ..self }
    }

    /// The console after a detection: video memory cleared, and all else as it was.
    pub open spec fn after_detection(self) -> Self {
        Console { video: VideoMemory::Cleared, ..self }
    }
}

/// Handles one serial interrupt.
///
/// Takes the word that the transfer left in the data register, moves the protocol
/// state on it and, where the protocol has a reply, puts the reply in the data
/// register and starts the next transfer.
pub fn game_boy_player_interrupt(console: &mut Console)
    ensures
        *final(console) == old(console).interrupted(),
        final(console).wf(),
{
    let (state, reply) = console.sio_state.receive(console.serial_data, console.rumble);
    match reply {
        Some(word) => {
            console.serial_data = word;
            console.serial_control = arm_transfer(console.serial_control);
        },
        None => {},
    }
    console.sio_state = state;
}

impl GameBoyPlayer {
    /// Looks for a Game Boy Player.
    ///
    /// Shows the splash screen, reads the keypad once in each of
    /// [`DETECTION_FRAMES`] frames, of which `keypad` holds the readings, then puts
    /// the display registers back and clears video memory. The player is there if
    /// and only if some reading is [`KEYPAD_SENTINEL`].
    pub fn detect(console: &mut Console, keypad: &[u16; DETECTION_FRAMES]) -> (player: Option<Self>)
        ensures
            *final(console) == old(console).after_detection(),
            final(console).display_control == old(console).display_control,
            final(console).background0_control == old(console).background0_control,
            player == if keypad@.contains(KEYPAD_SENTINEL) {
                Some(GameBoyPlayer)
            } else {
                None
            },
    {
        let mut detection = Detection::begin(console.display_control, console.background0_control);
        console.display_control = SPLASH_DISPLAY_CONTROL;
        console.background0_control = SPLASH_BACKGROUND0_CONTROL;
        console.video = VideoMemory::Splash;

        while !detection.is_complete()
            invariant
                detection@.len() <= DETECTION_FRAMES,
                detection@ == keypad@.take(detection@.len() as int),
                detection.saved_display_control() == old(console).display_control,
                detection.saved_background0_control() == old(console).background0_control,
            decreases DETECTION_FRAMES - detection@.len(),
        {
            let frame = detection.frame();
            detection.sample(keypad[frame]);
        }

        assert(detection@ == keypad@);
        console.display_control = detection.display_control();
        console.background0_control = detection.background0_control();
        console.video = VideoMemory::Cleared;
        detection.finish()
    }

    /// Tells the motor to turn.
    pub fn start(&self, console: &mut Console)
        ensures
            *final(console) == old(console).commanded(GameBoyPlayerRumble::Start),
    {
        console.rumble = GameBoyPlayerRumble::Start;
    }

    /// Tells the motor to run out.
    pub fn stop(&self, console: &mut Console)
        ensures
            *final(console) == old(console).commanded(GameBoyPlayerRumble::Stop),
    {
        console.rumble = GameBoyPlayerRumble::Stop;
    }

    /// Tells the motor to brake.
    pub fn hard_stop(&self, console: &mut Console)
        ensures
            *final(console) == old(console).commanded(GameBoyPlayerRumble::HardStop),
    {
        console.rumble = GameBoyPlayerRumble::HardStop;
    }

    /// Starts the next serial transfer. The Game Boy Player drives the clock of the
    /// link, so the console has to do this once in every frame to keep it going.
    pub fn update(&self, console: &mut Console)
        ensures
            *final(console) == old(console).updated(),
    {
        console.serial_control = arm_transfer(console.serial_control);
    }
}

} // verus!
