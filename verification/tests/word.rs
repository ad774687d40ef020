use gba_rumble::player::{arm_transfer, TRANSFER_START};
use gba_rumble::word::{flip, halves, join};

const WORDS: [u32; 8] = [
    0x0000_0000,
    0xFFFF_FFFF,
    0xB6B1_494E,
    0x0000_494E,
    0x494E_0000,
    0x0001_FFFF,
    0xFFFE_0001,
    0x1234_5678,
];

#[test]
fn halves_splits_at_bit_16() {
    assert_eq!(halves(0xB6B1_494E), (0x494E, 0xB6B1));
    assert_eq!(halves(0x0000_FFFF), (0xFFFF, 0x0000));
    assert_eq!(halves(0xFFFF_0000), (0x0000, 0xFFFF));
    assert_eq!(halves(0x0001_0000), (0x0000, 0x0001));
    assert_eq!(halves(0x1234_5678), (0x5678, 0x1234));
}

#[test]
fn join_puts_the_second_half_on_top() {
    assert_eq!(join(0x494E, 0xB6B1), 0xB6B1_494E);
    assert_eq!(join(0xB6B1, 0x544E), 0x544E_B6B1);
    assert_eq!(join(0xFFFF, 0x0000), 0x0000_FFFF);
    assert_eq!(join(0x0000, 0xFFFF), 0xFFFF_0000);
}

#[test]
fn halves_and_join_undo_each_other() {
    for word in WORDS {
        let (low, high) = halves(word);
        assert_eq!(join(low, high), word);
        assert_eq!(halves(join(high, low)), (high, low));
    }
}

#[test]
fn halves_agree_with_the_arithmetic() {
    for word in WORDS {
        let (low, high) = halves(word);
        assert_eq!(u32::from(low), word % 0x1_0000);
        assert_eq!(u32::from(high), word / 0x1_0000);
        assert_eq!(u32::from(high) * 0x1_0000 + u32::from(low), word);
    }
}

#[test]
fn flip_is_the_complement() {
    assert_eq!(flip(0x494E), 0xB6B1);
    assert_eq!(flip(0x544E), 0xABB1);
    assert_eq!(flip(0x4E45), 0xB1BA);
    assert_eq!(flip(0x4F44), 0xB0BB);
    assert_eq!(flip(0x0000), 0xFFFF);
    assert_eq!(flip(0xFFFF), 0x0000);
    for half in [0x0000_u16, 0x0001, 0x494E, 0x8000, 0xFFFF] {
        assert_eq!(flip(half), 0xFFFF - half);
        assert_eq!(flip(flip(half)), half);
    }
}

#[test]
fn arm_transfer_sets_bit_7_and_keeps_the_rest() {
    assert_eq!(TRANSFER_START, 1 << 7);
    assert_eq!(arm_transfer(0x0000), 0x0080);
    assert_eq!(arm_transfer(0x5008), 0x5088);
    assert_eq!(arm_transfer(0x5088), 0x5088);
    assert_eq!(arm_transfer(0xFF7F), 0xFFFF);
    for control in [0x0000_u16, 0x0001, 0x007F, 0x0080, 0x5008, 0xFFFF] {
        assert_eq!(arm_transfer(arm_transfer(control)), arm_transfer(control));
        assert_eq!(arm_transfer(control) & 0xFF7F, control & 0xFF7F);
    }
}
