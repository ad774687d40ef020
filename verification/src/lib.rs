//! Rumble for the Game Boy Advance, with its protocol logic verified.
//!
//! Two independent paths make a motor turn: a latch on the cartridge, driven
//! through its general purpose I/O port ([`Gpio`]), and the Game Boy Player,
//! which relays rumble commands to the controller over the serial link once a
//! handshake has succeeded ([`GameBoyPlayer`], [`game_boy_player_interrupt`]).
//!
//! Everything here works on plain values. [`Console`] is an in-memory image of
//! the registers involved; the code that touches the real registers reads the
//! words in, asks this crate what to do, and writes the answers out.
//!
//! # Usage
//! ## Cartridge (GPIO) rumble
//! There is no reliable way to detect a motor on the cartridge, so there is
//! nothing to detect first. Where there is no motor, the writes do nothing.
//!
//! ```
//! use gba_rumble::{Console, Gpio};
//!
//! let mut console = Console::new();
//! let gpio = Gpio;
//!
//! // Turn the motor. It keeps turning until `stop()` is called.
//! gpio.start(&mut console);
//!
//! // Let the motor rest.
//! gpio.stop(&mut console);
//! ```
//!
//! ## Game Boy Player rumble
//! A Game Boy Player has to be detected before anything else uses the display.
//! The detection hands out a [`GameBoyPlayer`], through which the rumble
//! commands are given. The serial interrupt serves the command that is current
//! to the player, once the handshake is through.
//!
//! ```
//! use gba_rumble::{game_boy_player_interrupt, Console, GameBoyPlayer};
//!
//! let mut console = Console::new();
//! // What the keypad showed in each frame of the detection.
//! let keypad = [0x030F; 125];
//!
//! if let Some(game_boy_player) = GameBoyPlayer::detect(&mut console, &keypad) {
//!     game_boy_player.start(&mut console);
//!     // Once in every frame:
//!     game_boy_player.update(&mut console);
//!     // On every serial interrupt:
//!     game_boy_player_interrupt(&mut console);
//! }
//! ```
//!
//! # What is proved
//! Every function states what it returns and what it changes, and Verus proves
//! that it does so without overflow or panic. [`GameBoyPlayerSioState::transition`]
//! is the whole protocol; [`theorems`] holds what follows from it: that the
//! handshake advances on the right words and on no others, that every fault
//! starts the exchange over and the next faultless exchange is served, that the
//! main loop and the interrupt cannot get in each other's way, and that the two
//! rumble paths are independent.

#![allow(unused_imports)]

pub mod bounded;
pub mod console;
pub mod detect;
pub mod gpio;
pub mod player;
pub mod protocol;
pub mod rumble;
pub mod sio;
pub mod theorems;
pub mod word;

pub use console::{Console, VideoMemory};
pub use detect::{Detection, GameBoyPlayer};
pub use gpio::Gpio;
pub use player::game_boy_player_interrupt;
pub use rumble::GameBoyPlayerRumble;
pub use sio::GameBoyPlayerSioState;
