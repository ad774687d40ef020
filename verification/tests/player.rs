use gba_rumble::{Console, GameBoyPlayer, GameBoyPlayerRumble, GameBoyPlayerSioState, VideoMemory};

/// The keypad as a console without a Game Boy Player shows it: nothing pressed.
const IDLE: u16 = 0x03FF;

fn keypad_with(sentinel_frames: &[usize]) -> [u16; 125] {
    let mut keypad = [IDLE; 125];
    for &frame in sentinel_frames {
        keypad[frame] = 0x030F;
    }
    keypad
}

fn detected_player() -> GameBoyPlayer {
    let mut console = Console::new();
    GameBoyPlayer::detect(&mut console, &keypad_with(&[0])).expect("frame 0 showed the sentinel")
}

#[test]
fn game_boy_player_debug() {
    assert_eq!(format!("{:?}", detected_player()), "GameBoyPlayer");
}

#[test]
fn game_boy_player_detect_successful() {
    let mut console = Console::new();
    let keypad = [0x030F_u16; 125];

    assert_eq!(GameBoyPlayer::detect(&mut console, &keypad), Some(detected_player()));
}

#[test]
fn game_boy_player_detect_failure() {
    let mut console = Console::new();
    let keypad = [IDLE; 125];

    assert_eq!(GameBoyPlayer::detect(&mut console, &keypad), None);
}

#[test]
fn game_boy_player_start() {
    let game_boy_player = detected_player();
    let mut console = Console::new();

    game_boy_player.start(&mut console);

    assert!(matches!(console.rumble, GameBoyPlayerRumble::Start));
}

#[test]
fn game_boy_player_stop() {
    let game_boy_player = detected_player();
    let mut console = Console::new();
    console.rumble = GameBoyPlayerRumble::Start;

    game_boy_player.stop(&mut console);

    assert!(matches!(console.rumble, GameBoyPlayerRumble::Stop));
}

#[test]
fn game_boy_player_hard_stop() {
    let game_boy_player = detected_player();
    let mut console = Console::new();

    game_boy_player.hard_stop(&mut console);

    assert!(matches!(console.rumble, GameBoyPlayerRumble::HardStop));
}

#[test]
fn detect_sees_a_single_sentinel_in_any_frame() {
    for frame in [0, 1, 62, 123, 124] {
        let mut console = Console::new();
        assert!(
            GameBoyPlayer::detect(&mut console, &keypad_with(&[frame])).is_some(),
            "sentinel in frame {frame}"
        );
    }
}

#[test]
fn detect_keeps_a_sentinel_that_later_frames_do_not_repeat() {
    let mut console = Console::new();
    let mut keypad = keypad_with(&[3]);
    keypad[4] = 0x0000;
    keypad[124] = IDLE;

    assert!(GameBoyPlayer::detect(&mut console, &keypad).is_some());
}

#[test]
fn detect_takes_nothing_but_the_sentinel() {
    for near in [0x030E_u16, 0x031F, 0x020F, 0x070F, 0x0000, 0xFFFF, 0x0F03] {
        let mut console = Console::new();
        assert_eq!(GameBoyPlayer::detect(&mut console, &[near; 125]), None, "reading {near:#06x}");
    }
}

#[test]
fn detect_restores_the_display_registers() {
    for keypad in [keypad_with(&[]), keypad_with(&[17])] {
        let mut console = Console::new();
        console.display_control = 0x1F43;
        console.background0_control = 0xBEEF;
        console.video = VideoMemory::Program;
        console.serial_data = 0xB6B1494E;
        console.serial_control = 0x5008;
        console.rumble = GameBoyPlayerRumble::Start;
        console.sio_state = GameBoyPlayerSioState::Magic { index: 2 };
        let before = console;

        let _ = GameBoyPlayer::detect(&mut console, &keypad);

        assert_eq!(console.display_control, 0x1F43);
        assert_eq!(console.background0_control, 0xBEEF);
        assert_eq!(console.video, VideoMemory::Cleared);
        assert_eq!(console, Console { video: VideoMemory::Cleared, ..before });
    }
}

#[test]
fn commands_overwrite_each_other() {
    let game_boy_player = detected_player();
    let mut console = Console::new();

    game_boy_player.start(&mut console);
    game_boy_player.hard_stop(&mut console);
    assert_eq!(console.rumble, GameBoyPlayerRumble::HardStop);
    game_boy_player.stop(&mut console);
    assert_eq!(console.rumble, GameBoyPlayerRumble::Stop);
    game_boy_player.start(&mut console);
    assert_eq!(console.rumble, GameBoyPlayerRumble::Start);
}

#[test]
fn stop_twice_is_stop_once_and_leaves_the_rest_alone() {
    let game_boy_player = detected_player();
    let mut console = Console::new();
    console.rumble = GameBoyPlayerRumble::Start;
    console.sio_state = GameBoyPlayerSioState::Handshake { index: 2 };
    console.serial_data = 0xABB14E45;
    console.serial_control = 0x5008;
    let before = console;

    game_boy_player.stop(&mut console);
    let once = console;
    game_boy_player.stop(&mut console);

    assert_eq!(console, once);
    assert_eq!(console, Console { rumble: GameBoyPlayerRumble::Stop, ..before });
    assert_eq!(console.sio_state, GameBoyPlayerSioState::Handshake { index: 2 });
}

#[test]
fn update_sets_bit_7_of_the_serial_control_register() {
    let game_boy_player = detected_player();
    for (control, armed) in [(0x0000_u16, 0x0080_u16), (0x5008, 0x5088), (0x0080, 0x0080), (0xFF7F, 0xFFFF), (0xFFFF, 0xFFFF)] {
        let mut console = Console::new();
        console.serial_control = control;
        console.sio_state = GameBoyPlayerSioState::SendData;
        let before = console;

        game_boy_player.update(&mut console);

        assert_eq!(console.serial_control, armed);
        assert_eq!(console, Console { serial_control: armed, ..before });
    }
}

#[test]
fn update_twice_is_update_once() {
    let game_boy_player = detected_player();
    let mut console = Console::new();
    console.serial_control = 0x5008;
    console.sio_state = GameBoyPlayerSioState::Magic { index: 1 };

    game_boy_player.update(&mut console);
    let once = console;
    game_boy_player.update(&mut console);

    assert_eq!(console, once);
    assert_eq!(console.sio_state, GameBoyPlayerSioState::Magic { index: 1 });
    assert_eq!(console.rumble, GameBoyPlayerRumble::Stop);
}

#[test]
fn a_new_console_is_idle() {
    let console = Console::new();

    assert_eq!(console.sio_state, GameBoyPlayerSioState::Handshake { index: 0 });
    assert_eq!(console.rumble, GameBoyPlayerRumble::Stop);
    assert_eq!(console.serial_data, 0);
    assert_eq!(console.serial_control, 0);
    assert_eq!(console.display_control, 0);
    assert_eq!(console.background0_control, 0);
    assert_eq!(console.video, VideoMemory::Cleared);
    assert_eq!((console.gpio_enable, console.gpio_direction, console.gpio_data), (0, 0, 0));
}
