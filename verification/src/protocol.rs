//! The constants of the Game Boy Player's serial protocol.

use vstd::prelude::*;

verus! {

/// The four keys of the handshake, in the order in which they are exchanged.
pub const HANDSHAKE: [u16; 4] = [0x494E, 0x544E, 0x4E45, 0x4F44];

/// The four magic values, exchanged as adjacent pairs once the handshake is through.
pub const MAGIC_VALUES: [u32; 4] = [0xB0BB_8002, 0x1000_0010, 0x2000_0013, 0x4000_0004];

/// The reply to the last handshake word, which opens the magic exchange.
pub const MAGIC_START: u32 = 0x8000_B0BB;

/// The word with which the Game Boy Player polls for the rumble command.
pub const POLL: u32 = 0x3000_0003;

/// The handshake key at `index`.
pub open spec fn handshake_key(index: int) -> u16
    recommends
        0 <= index <= 3,
{
    HANDSHAKE@[index]
}

/// The magic value at `index`.
pub open spec fn magic_value(index: int) -> u32
    recommends
        0 <= index <= 3,
{
    MAGIC_VALUES@[index]
}

} // verus!
