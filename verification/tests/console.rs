use gba_rumble::{
    game_boy_player_interrupt, Console, GameBoyPlayer, GameBoyPlayerRumble, GameBoyPlayerSioState,
    Gpio, VideoMemory,
};

/// The states and the words that matter to them, paired so that each state meets its
/// expected word, a prompt-worthy word, other states' words and plain noise.
fn consoles() -> Vec<Console> {
    let states = [
        GameBoyPlayerSioState::Handshake { index: 0 },
        GameBoyPlayerSioState::Handshake { index: 1 },
        GameBoyPlayerSioState::Handshake { index: 2 },
        GameBoyPlayerSioState::Handshake { index: 3 },
        GameBoyPlayerSioState::Magic { index: 1 },
        GameBoyPlayerSioState::Magic { index: 2 },
        GameBoyPlayerSioState::Magic { index: 3 },
        GameBoyPlayerSioState::SendData,
    ];
    let words = [
        0xB6B1494E_u32,
        0xABB1544E,
        0xB1BA4E45,
        0xB0BB4F44,
        0xB0BB8002,
        0x10000010,
        0x20000013,
        0x30000003,
        0x0000494E,
        0xFFFF4F44,
        0x12345678,
    ];
    let mut consoles = Vec::new();
    for state in states {
        for word in words {
            for control in [0x5008_u16, 0x5088] {
                let mut console = Console::new();
                console.sio_state = state;
                console.serial_data = word;
                console.serial_control = control;
                console.display_control = 0x1F43;
                console.background0_control = 0x0203;
                console.video = VideoMemory::Program;
                console.rumble = GameBoyPlayerRumble::HardStop;
                consoles.push(console);
            }
        }
    }
    consoles
}

fn player() -> GameBoyPlayer {
    GameBoyPlayer::detect(&mut Console::new(), &[0x030F; 125]).expect("sentinel shown")
}

#[test]
fn interrupt_keeps_to_the_serial_port() {
    for before in consoles() {
        let mut console = before;
        game_boy_player_interrupt(&mut console);
        assert_eq!(
            console,
            Console {
                serial_data: console.serial_data,
                serial_control: console.serial_control,
                sio_state: console.sio_state,
                ..before
            }
        );
    }
}

#[test]
fn interrupt_starts_a_transfer_exactly_when_it_replies() {
    for before in consoles() {
        let mut console = before;
        let (_, reply) = before.sio_state.receive(before.serial_data, before.rumble);
        game_boy_player_interrupt(&mut console);
        match reply {
            Some(word) => {
                assert_eq!(console.serial_data, word);
                assert_eq!(console.serial_control, before.serial_control | 0x0080);
            }
            None => {
                assert_eq!(console.serial_data, before.serial_data);
                assert_eq!(console.serial_control, before.serial_control);
                assert_eq!(console.sio_state, GameBoyPlayerSioState::Handshake { index: 0 });
            }
        }
    }
}

#[test]
fn update_commutes_with_interrupt() {
    let game_boy_player = player();
    for before in consoles() {
        let mut update_first = before;
        game_boy_player.update(&mut update_first);
        game_boy_player_interrupt(&mut update_first);

        let mut interrupt_first = before;
        game_boy_player_interrupt(&mut interrupt_first);
        game_boy_player.update(&mut interrupt_first);

        assert_eq!(update_first, interrupt_first);
    }
}

#[test]
fn command_commutes_with_interrupt_but_for_the_poll_reply() {
    let game_boy_player = player();
    for before in consoles() {
        let mut command_first = before;
        game_boy_player.start(&mut command_first);
        game_boy_player_interrupt(&mut command_first);

        let mut interrupt_first = before;
        game_boy_player_interrupt(&mut interrupt_first);
        game_boy_player.start(&mut interrupt_first);

        let polled = before.sio_state == GameBoyPlayerSioState::SendData
            && before.serial_data == 0x30000003;
        if polled {
            assert_eq!(command_first.serial_data, 0x40000026);
            assert_eq!(interrupt_first.serial_data, 0x40000015);
            assert_eq!(command_first, Console { serial_data: 0x40000026, ..interrupt_first });
        } else {
            assert_eq!(command_first, interrupt_first);
        }
    }
}

#[test]
fn gpio_commutes_with_the_game_boy_player() {
    let game_boy_player = player();
    let gpio = Gpio;
    for before in consoles() {
        let mut gpio_first = before;
        gpio.start(&mut gpio_first);
        game_boy_player_interrupt(&mut gpio_first);
        game_boy_player.update(&mut gpio_first);
        game_boy_player.stop(&mut gpio_first);
        gpio.stop(&mut gpio_first);

        let mut gpio_last = before;
        game_boy_player_interrupt(&mut gpio_last);
        game_boy_player.update(&mut gpio_last);
        game_boy_player.stop(&mut gpio_last);
        gpio.start(&mut gpio_last);
        gpio.stop(&mut gpio_last);

        assert_eq!(gpio_first, gpio_last);
    }
}

#[test]
fn detection_changes_video_memory_only() {
    for before in consoles() {
        for keypad in [[0x03FF_u16; 125], [0x030F; 125]] {
            let mut console = before;
            let _ = GameBoyPlayer::detect(&mut console, &keypad);
            assert_eq!(console, Console { video: VideoMemory::Cleared, ..before });
        }
    }
}

#[test]
fn every_interrupt_leaves_a_valid_state() {
    for before in consoles() {
        let mut console = before;
        game_boy_player_interrupt(&mut console);
        let valid = match console.sio_state {
            GameBoyPlayerSioState::Handshake { index } => index <= 3,
            GameBoyPlayerSioState::Magic { index } => (1..=3).contains(&index),
            GameBoyPlayerSioState::SendData => true,
        };
        assert!(valid, "{:?}", console.sio_state);
    }
}
