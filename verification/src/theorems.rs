//! What holds of the protocol and of the operations on the console, proved from
//! their definitions.

use vstd::prelude::*;

use crate::console::Console;
use crate::player::armed;
use crate::protocol::{HANDSHAKE, MAGIC_START, MAGIC_VALUES, POLL};
use crate::rumble::GameBoyPlayerRumble;
use crate::sio::GameBoyPlayerSioState;
use crate::word::{lemma_complement_in_bits, lemma_halves_in_bits, lemma_pack_in_bits};

verus! {

// One word at a time.

/// In each of the four handshake states, the word with the state's key in its low
/// half and the key's complement in its high half advances the exchange: to the
/// next handshake state, with a reply that holds the received complement in its low
/// half and the next key in its high half, or, after the last key, to the first
/// magic state, with the reply that opens the magic exchange.
pub proof fn handshake_word_advances(index: usize, rumble: GameBoyPlayerRumble)
    requires
        index <= 3,
    ensures
        ({
            let key = HANDSHAKE@[index as int];
            let input = (key as u32) | ((!key as u32) << 16);
            let outcome = (GameBoyPlayerSioState::Handshake { index }).transition(input, rumble);
            if index < 3 {
                let next_key = HANDSHAKE@[index + 1];
                outcome == (
                    GameBoyPlayerSioState::Handshake { index: (index + 1) as usize },
                    Some((input >> 16) | ((next_key as u32) << 16)),
                )
            } else {
                outcome == (GameBoyPlayerSioState::Magic { index: 1 }, Some(MAGIC_START))
            }
        }),
{
    let key = HANDSHAKE@[index as int];
    let input = (key as u32) | ((!key as u32) << 16);
    lemma_complement_in_bits(key);
    lemma_pack_in_bits(key, !key);
    lemma_halves_in_bits(input);
    if index < 3 {
        lemma_pack_in_bits(!key, HANDSHAKE@[index + 1]);
    }
}

/// In each of the three magic states, the magic value before the state's index is
/// answered with the one at the index, and advances the exchange: to the next magic
/// state or, after the last, to the state that serves the rumble command.
pub proof fn magic_value_advances(index: usize, rumble: GameBoyPlayerRumble)
    requires
        1 <= index <= 3,
    ensures
        (GameBoyPlayerSioState::Magic { index }).transition(MAGIC_VALUES@[index - 1], rumble) == (
            if index < 3 {
                GameBoyPlayerSioState::Magic { index: (index + 1) as usize }
            } else {
                GameBoyPlayerSioState::SendData
            },
            Some(MAGIC_VALUES@[index as int]),
        ),
{
}

/// While the rumble command is served, the poll is answered with the command that
/// is stored at that moment and changes nothing; any other word resets the exchange
/// without a reply.
pub proof fn poll_serves_rumble(input: u32, rumble: GameBoyPlayerRumble)
    ensures
        GameBoyPlayerSioState::SendData.transition(input, rumble) == if input == POLL {
            (GameBoyPlayerSioState::SendData, Some(rumble.spec_word()))
        } else {
            (GameBoyPlayerSioState::Handshake { index: 0 }, None)
        },
{
}

/// In any state, a word that is not the expected one resets the exchange and gets no
/// reply. The one exception is a handshake word that carries the right key: it is
/// answered, and the state stays.
pub proof fn unexpected_word_resets(
    state: GameBoyPlayerSioState,
    input: u32,
    rumble: GameBoyPlayerRumble,
)
    requires
        input != state.expected(),
        !state.key_matches(input),
    ensures
        state.transition(input, rumble) == (GameBoyPlayerSioState::Handshake { index: 0 }, None::<u32>),
{
}

/// A word fits one state only: what one valid state expects, every other valid state
/// takes for a fault. A word that arrives out of turn therefore always resets the
/// exchange.
pub proof fn expected_word_fits_one_state(
    state: GameBoyPlayerSioState,
    other: GameBoyPlayerSioState,
    rumble: GameBoyPlayerRumble,
)
    requires
        state.wf(),
        other.wf(),
        state != other,
    ensures
        state.expected() != other.expected(),
        !other.key_matches(state.expected()),
        other.transition(state.expected(), rumble) == (
            GameBoyPlayerSioState::Handshake { index: 0 },
            None::<u32>,
        ),
{
}

/// The rumble command never steers the exchange: the next state is the same whatever
/// command is stored, and so is the reply, but for the reply to the poll.
pub proof fn command_does_not_steer(
    state: GameBoyPlayerSioState,
    input: u32,
    one: GameBoyPlayerRumble,
    other: GameBoyPlayerRumble,
)
    ensures
        state.transition(input, one).0 == state.transition(input, other).0,
        !(state == GameBoyPlayerSioState::SendData && input == POLL) ==> state.transition(
            input,
            one,
        ) == state.transition(input, other),
{
}

/// Every state that the exchange reaches is valid, whatever it started from.
pub proof fn transition_keeps_wf(state: GameBoyPlayerSioState, input: u32, rumble: GameBoyPlayerRumble)
    ensures
        state.transition(input, rumble).0.wf(),
{
}

/// How far the exchange has come: the number of expected words received since the
/// last reset, up to the seven that it takes to reach the serving state.
pub open spec fn progress(state: GameBoyPlayerSioState) -> nat {
    match state {
        GameBoyPlayerSioState::Handshake { index } => index as nat,
        GameBoyPlayerSioState::Magic { index } => (3 + index) as nat,
        GameBoyPlayerSioState::SendData => 7,
    }
}

/// A word moves the exchange one step forward, leaves it where it is, or sends it
/// back to the start: it never skips a step and never goes back part of the way.
pub proof fn exchange_advances_in_order(
    state: GameBoyPlayerSioState,
    input: u32,
    rumble: GameBoyPlayerRumble,
)
    requires
        state.wf(),
    ensures
        ({
            let next = state.transition(input, rumble).0;
            ||| progress(next) == progress(state) + 1
            ||| next == state
            ||| next == GameBoyPlayerSioState::Handshake { index: 0 }
        }),
        progress(state) <= 7,
        progress(state) == 7 <==> state == GameBoyPlayerSioState::SendData,
{
}

// Runs of words.

/// The state after the words of `words` have been received in order. The rumble
/// command has no part in it: see [`command_does_not_steer`].
pub open spec fn replay(state: GameBoyPlayerSioState, words: Seq<u32>) -> GameBoyPlayerSioState
    decreases words.len(),
{
    if words.len() == 0 {
        state
    } else {
        replay(state, words.drop_last()).transition(words.last(), GameBoyPlayerRumble::Stop).0
    }
}

/// Receiving one run of words after another is receiving both in one run.
pub proof fn replay_splits(state: GameBoyPlayerSioState, first: Seq<u32>, second: Seq<u32>)
    ensures
        replay(state, first + second) == replay(replay(state, first), second),
    decreases second.len(),
{
    if second.len() == 0 {
        assert(first + second == first);
    } else {
        replay_splits(state, first, second.drop_last());
        assert((first + second).drop_last() == first + second.drop_last());
        assert((first + second).last() == second.last());
    }
}

/// The seven words of a faultless exchange: the four keys, each with its complement in
/// the high half, and the first three magic values.
pub open spec fn exchange_words() -> Seq<u32> {
    seq![
        0xB6B1_494Eu32,
        0xABB1_544Eu32,
        0xB1BA_4E45u32,
        0xB0BB_4F44u32,
        0xB0BB_8002u32,
        0x1000_0010u32,
        0x2000_0013u32,
    ]
}

/// Each word of a faultless exchange is the one that the state reached by the words
/// before it expects.
pub proof fn exchange_words_are_expected(count: int)
    requires
        0 <= count < 7,
    ensures
        exchange_words()[count] == replay(
            GameBoyPlayerSioState::Handshake { index: 0 },
            exchange_words().take(count),
        ).expected(),
        progress(replay(GameBoyPlayerSioState::Handshake { index: 0 }, exchange_words().take(count)))
            == count,
    decreases count,
{
    let start = GameBoyPlayerSioState::Handshake { index: 0 };
    let words = exchange_words();
    if count > 0 {
        exchange_words_are_expected(count - 1);
        assert(words.take(count).drop_last() == words.take(count - 1));
        assert(words.take(count).last() == words[count - 1]);
    }
    let reached = replay(start, words.take(count));
    assert(reached.wf() && progress(reached) == count) by {
        if count > 0 {
            transition_keeps_wf(replay(start, words.take(count - 1)), words[count - 1], GameBoyPlayerRumble::Stop);
        }
    }
    assert(words[0] == 0xB6B1_494Eu32 && words[1] == 0xABB1_544Eu32 && words[2] == 0xB1BA_4E45u32
        && words[3] == 0xB0BB_4F44u32 && words[4] == 0xB0BB_8002u32 && words[5] == 0x1000_0010u32
        && words[6] == 0x2000_0013u32);
}

/// A faultless exchange ends in the state that serves the rumble command.
pub proof fn exchange_completes()
    ensures
        replay(GameBoyPlayerSioState::Handshake { index: 0 }, exchange_words())
            == GameBoyPlayerSioState::SendData,
{
    let start = GameBoyPlayerSioState::Handshake { index: 0 };
    let words = exchange_words();
    exchange_words_are_expected(6);
    assert(words.drop_last() == words.take(6));
    assert(words.last() == words[6]);
}

/// The exchange heals itself: whatever state a fault has struck, the next faultless
/// exchange is served.
pub proof fn exchange_recovers(state: GameBoyPlayerSioState, input: u32)
    requires
        input != state.expected(),
        !state.key_matches(input),
    ensures
        replay(state, seq![input] + exchange_words()) == GameBoyPlayerSioState::SendData,
{
    let start = GameBoyPlayerSioState::Handshake { index: 0 };
    assert(replay(state, seq![input]) == start) by {
        reveal_with_fuel(replay, 2);
        assert(seq![input].drop_last() == Seq::<u32>::empty());
        assert(seq![input].last() == input);
    }
    replay_splits(state, seq![input], exchange_words());
    exchange_completes();
}

/// No run of words gets the exchange further than its length: from the start, the
/// rumble command is served after seven words at the earliest.
pub proof fn serving_takes_seven_words(words: Seq<u32>)
    ensures
        progress(replay(GameBoyPlayerSioState::Handshake { index: 0 }, words)) <= words.len(),
        replay(GameBoyPlayerSioState::Handshake { index: 0 }, words).wf(),
        replay(GameBoyPlayerSioState::Handshake { index: 0 }, words)
            == GameBoyPlayerSioState::SendData ==> words.len() >= 7,
    decreases words.len(),
{
    if words.len() > 0 {
        let start = GameBoyPlayerSioState::Handshake { index: 0 };
        serving_takes_seven_words(words.drop_last());
        exchange_advances_in_order(
            replay(start, words.drop_last()),
            words.last(),
            GameBoyPlayerRumble::Stop,
        );
    }
}

// The console.

/// A reply is sent exactly when the word is the expected one or a handshake word that
/// carries the right key; a transfer is started exactly when a reply is sent.
pub proof fn replies_to_matching_words_only(console: Console)
    requires
        console.wf(),
    ensures
        console.sio_state.transition(console.serial_data, console.rumble).1.is_some() <==> (
        console.serial_data == console.sio_state.expected() || console.sio_state.key_matches(
            console.serial_data,
        )),
        console.sio_state.transition(console.serial_data, console.rumble).1.is_none() ==> {
            &&& console.interrupted().serial_data == console.serial_data
            &&& console.interrupted().serial_control == console.serial_control
        },
        console.sio_state.transition(console.serial_data, console.rumble).1.is_some() ==> {
            &&& Some(console.interrupted().serial_data) == console.sio_state.transition(
                console.serial_data,
                console.rumble,
            ).1
            &&& console.interrupted().serial_control == armed(console.serial_control)
        },
{
}

/// An interrupt on a word that resets the exchange changes nothing but the protocol
/// state: the word stays in the data register, and no transfer is started.
pub proof fn unexpected_word_leaves_registers(console: Console)
    requires
        console.serial_data != console.sio_state.expected(),
        !console.sio_state.key_matches(console.serial_data),
    ensures
        console.interrupted() == (Console {
            sio_state: GameBoyPlayerSioState::Handshake { index: 0 },
            ..console
        }),
{
}

/// The interrupt touches the serial port and the protocol state, and nothing else.
pub proof fn interrupt_keeps_to_the_serial_port(console: Console)
    ensures
        console.interrupted() == (Console {
            serial_data: console.interrupted().serial_data,
            serial_control: console.interrupted().serial_control,
            sio_state: console.interrupted().sio_state,
            ..console
        }),
        console.interrupted().serial_control == console.serial_control
            || console.interrupted().serial_control == armed(console.serial_control),
{
}

/// Giving a rumble command twice is the same as giving it once, and giving one never
/// touches the protocol state or a register.
pub proof fn command_is_idempotent(console: Console, rumble: GameBoyPlayerRumble)
    ensures
        console.commanded(rumble).commanded(rumble) == console.commanded(rumble),
        console.commanded(rumble) == (Console { rumble, ..console }),
        console.commanded(rumble).sio_state == console.sio_state,
{
}

/// Updating twice is the same as updating once, and updating never touches the
/// protocol state or the rumble command: it sets bit 7 of the serial control
/// register and nothing else.
pub proof fn update_is_idempotent(console: Console)
    ensures
        console.updated().updated() == console.updated(),
        console.updated() == (Console {
            serial_control: console.updated().serial_control,
            ..console
        }),
        console.updated().sio_state == console.sio_state,
        console.updated().rumble == console.rumble,
        console.updated().serial_control & 0x0080 == 0x0080,
        console.updated().serial_control & !0x0080u16 == console.serial_control & !0x0080u16,
{
    let control = console.serial_control;
    assert((control | 0x0080) | 0x0080 == control | 0x0080) by (bit_vector);
    assert((control | 0x0080) & 0x0080 == 0x0080) by (bit_vector);
    assert((control | 0x0080) & !0x0080u16 == control & !0x0080u16) by (bit_vector);
}

/// Updating does the same in every protocol state and under every rumble command.
pub proof fn update_ignores_the_exchange(
    console: Console,
    state: GameBoyPlayerSioState,
    rumble: GameBoyPlayerRumble,
)
    ensures
        (Console { sio_state: state, rumble, ..console }).updated() == (Console {
            sio_state: state,
            rumble,
            ..console.updated()
        }),
{
}

/// It makes no difference on which side of an interrupt the main loop updates: the
/// interrupt may strike before the update, after it, or between its read and its
/// write of the control register.
pub proof fn update_commutes_with_interrupt(console: Console)
    ensures
        console.updated().interrupted() == console.interrupted().updated(),
        (Console { serial_control: armed(console.serial_control), ..console.interrupted() })
            == console.interrupted().updated(),
{
    let control = console.serial_control;
    assert((control | 0x0080) | 0x0080 == control | 0x0080) by (bit_vector);
}

/// A command given on either side of an interrupt leaves the same console, but for
/// the reply to a poll, which holds the command that was stored when the poll came.
pub proof fn command_commutes_with_interrupt(console: Console, rumble: GameBoyPlayerRumble)
    ensures
        console.interrupted().rumble == console.rumble,
        console.commanded(rumble).interrupted().sio_state == console.interrupted().sio_state,
        !(console.sio_state == GameBoyPlayerSioState::SendData && console.serial_data == POLL)
            ==> console.commanded(rumble).interrupted() == console.interrupted().commanded(rumble),
        console.sio_state == GameBoyPlayerSioState::SendData && console.serial_data == POLL ==> {
            &&& console.commanded(rumble).interrupted().serial_data == rumble.spec_word()
            &&& console.interrupted().commanded(rumble).serial_data == console.rumble.spec_word()
        },
{
}

/// Starting the motor on the cartridge twice is starting it once, and so for
/// stopping it; stopping after starting leaves the port open and the line an output.
pub proof fn gpio_is_idempotent(console: Console)
    ensures
        console.rumbling().rumbling() == console.rumbling(),
        console.resting().resting() == console.resting(),
        console.rumbling().resting() == (Console { gpio_data: 0, ..console.rumbling() }),
        console.resting().rumbling() == console.rumbling(),
{
}

/// The two rumble paths are independent: what is done to the motor on the cartridge
/// commutes with everything that is done for the Game Boy Player, and never shows in
/// its registers or its state.
pub proof fn gpio_is_independent(console: Console, rumble: GameBoyPlayerRumble)
    ensures
        console.rumbling().interrupted() == console.interrupted().rumbling(),
        console.resting().interrupted() == console.interrupted().resting(),
        console.rumbling().commanded(rumble) == console.commanded(rumble).rumbling(),
        console.resting().commanded(rumble) == console.commanded(rumble).resting(),
        console.rumbling().updated() == console.updated().rumbling(),
        console.resting().updated() == console.updated().resting(),
        console.rumbling().after_detection() == console.after_detection().rumbling(),
        console.resting().after_detection() == console.after_detection().resting(),
{
}

/// A detection leaves the console as it found it, but for video memory: the display
/// registers, the serial port, the protocol state and the rumble command are what
/// they were.
pub proof fn detection_restores_the_console(console: Console)
    ensures
        console.after_detection().display_control == console.display_control,
        console.after_detection().background0_control == console.background0_control,
        console.after_detection().serial_data == console.serial_data,
        console.after_detection().serial_control == console.serial_control,
        console.after_detection().sio_state == console.sio_state,
        console.after_detection().rumble == console.rumble,
        console.after_detection().after_detection() == console.after_detection(),
{
}

} // verus!
