//! The state machine that answers the Game Boy Player on the serial link.
//!
//! Every completed transfer hands the machine one word. It moves through a
//! handshake of four keys and an exchange of magic values, and then serves the
//! current rumble command for as long as it is polled. Any word that does not
//! fit sends it back to the start.

use vstd::prelude::*;

use crate::bounded::checked_add;
use crate::protocol::{handshake_key, magic_value, HANDSHAKE, MAGIC_START, MAGIC_VALUES, POLL};
use crate::rumble::GameBoyPlayerRumble;
use crate::word::{complement, flip, halves, join, low_half, pack};

verus! {

/// Where the exchange with the Game Boy Player stands.
#[derive(Clone, Copy, Debug, PartialEq, Eq, Structural)]
pub enum GameBoyPlayerSioState {
    /// Waiting for the handshake word that carries the key at `index`, which is at most 3.
    Handshake { index: usize },
    /// Waiting for the magic value before `index`, to answer it with the one at `index`,
    /// which is between 1 and 3.
    Magic { index: usize },
    /// Serving the rumble command on every poll.
    SendData,
}

impl GameBoyPlayerSioState {
    /// Whether the index lies within the table that the state refers to.
    pub open spec fn wf(self) -> bool {
        match self {
            GameBoyPlayerSioState::Handshake { index } => index <= 3,
            GameBoyPlayerSioState::Magic { index } => 1 <= index <= 3,
            GameBoyPlayerSioState::SendData => true,
        }
    }

    /// The state in which every exchange starts, and to which every fault leads.
    pub open spec fn initial() -> Self {
        GameBoyPlayerSioState::Handshake { index: 0 }
    }

    /// The one word that lets the exchange go on: a key in the low half with its
    /// complement in the high half, the magic value due, or the poll.
    pub open spec fn expected(self) -> u32 {
        match self {
            GameBoyPlayerSioState::Handshake { index } => pack(
                handshake_key(index as int),
                complement(handshake_key(index as int)),
            ),
            GameBoyPlayerSioState::Magic { index } => magic_value(index - 1),
            GameBoyPlayerSioState::SendData => POLL,
        }
    }

    /// The state that follows the expected word.
    pub open spec fn advanced(self) -> Self {
        match self {
            GameBoyPlayerSioState::Handshake { index } => if index < 3 {
                GameBoyPlayerSioState::Handshake { index: (index + 1) as usize }
            } else {
                GameBoyPlayerSioState::Magic { index: 1 }
            },
            GameBoyPlayerSioState::Magic { index } => if index < 3 {
                GameBoyPlayerSioState::Magic { index: (index + 1) as usize }
            } else {
                GameBoyPlayerSioState::SendData
            },
            GameBoyPlayerSioState::SendData => GameBoyPlayerSioState::SendData,
        }
    }

    /// The reply to the expected word: the complement just received beside the next key,
    /// the opening of the magic exchange, the next magic value, or the rumble command.
    pub open spec fn answer(self, rumble: GameBoyPlayerRumble) -> u32 {
        match self {
            GameBoyPlayerSioState::Handshake { index } => if index < 3 {
                pack(complement(handshake_key(index as int)), handshake_key(index + 1))
            } else {
                MAGIC_START
            },
            GameBoyPlayerSioState::Magic { index } => magic_value(index as int),
            GameBoyPlayerSioState::SendData => rumble.spec_word(),
        }
    }

    /// Whether `input` carries the key that a handshake state waits for, whatever its
    /// high half holds.
    pub open spec fn key_matches(self, input: u32) -> bool {
        self matches GameBoyPlayerSioState::Handshake { index }
            && low_half(input) == handshake_key(index as int)
    }

    /// The reply to a handshake word whose key is right and whose high half is not:
    /// the key with its complement, halves swapped, which asks for the word again.
    pub open spec fn prompt(self) -> u32 {
        match self {
            GameBoyPlayerSioState::Handshake { index } => pack(
                complement(handshake_key(index as int)),
                handshake_key(index as int),
            ),
            _ => 0,
        }
    }

    /// The state after `input` has been received, and the reply to send, if any.
    ///
    /// The expected word advances the exchange and is answered. A handshake word with
    /// the right key and a wrong high half is answered with a prompt and changes
    /// nothing. Every other word resets the exchange without a reply, and so does
    /// every word in a state whose index lies outside its table: no such state comes
    /// out of this function, and one that is handed in is a fault like any other.
    pub open spec fn transition(self, input: u32, rumble: GameBoyPlayerRumble) -> (
        Self,
        Option<u32>,
    ) {
        if !self.wf() {
            (Self::initial(), None)
        } else if input == self.expected() {
            (self.advanced(), Some(self.answer(rumble)))
        } else if self.key_matches(input) {
            (self, Some(self.prompt()))
        } else {
            (Self::initial(), None)
        }
    }

    /// The state in which every exchange starts.
    pub fn new() -> (state: Self)
        ensures
            state == Self::initial(),
            state.wf(),
    {
        GameBoyPlayerSioState::Handshake { index: 0 }
    }

    /// The handshake key at `index`.
    pub fn get_handshake_key(index: usize) -> (key: u16)
        requires
            index <= 3,
        ensures
            key == handshake_key(index as int),
    {
        HANDSHAKE[index]
    }

    /// The magic value that a magic state waits for, and the one it answers with.
    pub fn get_magic_values(index: usize) -> (values: (u32, u32))
        requires
            1 <= index <= 3,
        ensures
            values.0 == magic_value(index - 1),
            values.1 == magic_value(index as int),
    {
        (MAGIC_VALUES[index - 1], MAGIC_VALUES[index])
    }

    /// Receives one word: returns the next state and the reply to send, if any.
    pub fn receive(self, input: u32, rumble: GameBoyPlayerRumble) -> (outcome: (Self, Option<u32>))
        ensures
            outcome == self.transition(input, rumble),
            outcome.0.wf(),
    {
        match self {
            GameBoyPlayerSioState::Handshake { index } => {
                if index > 3 {
                    return (Self::new(), None);
                }
                let key = Self::get_handshake_key(index);
                let (low, high) = halves(input);
                if low == key {
                    let echo = flip(key);
                    if high == echo {
                        match checked_add(index, 1, 0, 3) {
                            Some(new_index) => {
                                let new_key = Self::get_handshake_key(new_index);
                                (
                                    GameBoyPlayerSioState::Handshake { index: new_index },
                                    Some(join(high, new_key)),
                                )
                            },
                            None => (GameBoyPlayerSioState::Magic { index: 1 }, Some(MAGIC_START)),
                        }
                    } else {
                        (self, Some(join(echo, key)))
                    }
                } else {
                    (Self::new(), None)
                }
            },
            GameBoyPlayerSioState::Magic { index } => {
                if index < 1 || index > 3 {
                    return (Self::new(), None);
                }
                let (old_key, new_key) = Self::get_magic_values(index);
                if input == old_key {
                    match checked_add(index, 1, 1, 3) {
                        Some(new_index) => (
                            GameBoyPlayerSioState::Magic { index: new_index },
                            Some(new_key),
                        ),
                        None => (GameBoyPlayerSioState::SendData, Some(new_key)),
                    }
                } else {
                    (Self::new(), None)
                }
            },
            GameBoyPlayerSioState::SendData => {
                if input == POLL {
                    (GameBoyPlayerSioState::SendData, Some(rumble.word()))
                } else {
                    (Self::new(), None)
                }
            },
        }
    }
}

} // verus!
