use nixie_clock::bits::bool_vec_of;
use nixie_clock::clock_objects::{LingerDurations, NCS3148CMessage, NCS3186Message};
use nixie_clock::errors::DisplayMessageError;

fn no_lingers() -> LingerDurations {
    LingerDurations { off: None, on: None }
}

fn set_bit_positions(bv: &bit_vec::BitVec<u8>) -> Vec<usize> {
    bool_vec_of(bv)
        .iter()
        .enumerate()
        .filter(|(_, b)| **b)
        .map(|(i, _)| i)
        .collect()
}

fn blank_ncs3148c() -> NCS3148CMessage {
    NCS3148CMessage {
        t0: None,
        t1: None,
        s0: None,
        t2: None,
        t3: None,
        s1: None,
        t4: None,
        t5: None,
        s2: None,
        t6: None,
        t7: None,
        t8: None,
        lingers: no_lingers(),
    }
}

#[test]
fn register_width_is_constant_for_ncs3148c() {
    let blank = blank_ncs3148c();
    assert_eq!(bool_vec_of(&blank.to_raw()).len(), 96);
    let full = NCS3148CMessage::from_string("12:34:56.789 ".to_string(), no_lingers());
    assert_eq!(bool_vec_of(&full.to_raw()).len(), 96);
    assert_eq!(blank.to_raw_bytes(), vec![0u8; 12]);
}

#[test]
fn register_width_is_constant_for_ncs3186() {
    let blank = NCS3186Message {
        t0: None,
        t1: None,
        s0: None,
        t2: None,
        t3: None,
        s1: None,
        t4: None,
        t5: None,
        lingers: no_lingers(),
    };
    assert_eq!(bool_vec_of(&blank.to_raw()).len(), 96);
    let full = NCS3186Message::from_string("12:34:56".to_string(), no_lingers());
    assert_eq!(bool_vec_of(&full.to_raw()).len(), 96);
    assert_eq!(blank.to_raw_bytes(), vec![0u8; 12]);
}

// Register bit offsets of the twelve-slot layout, most significant tube
// group first: s2 at 0..2, t8 at 2..12, t7 at 12..22, t6 at 22..32, s1 at
// 32..34, t5 at 34..44, t4 at 44..54, t3 at 54..64, s0 at 64..66, t2 at
// 66..76, t1 at 76..86, t0 at 86..96. A digit d lights bit 9-d of its
// tube group.
#[test]
fn full_time_string_lights_the_expected_bits() {
    let msg = NCS3148CMessage::from_string("12:34:56.789 ".to_string(), no_lingers());
    let raw = msg.to_raw();
    let mut expected = vec![
        86 + 9 - 1, // t0 = '1'
        76 + 9 - 2, // t1 = '2'
        64,
        65,         // s0 = ':' lights both indicators
        66 + 9 - 3, // t2 = '3'
        54 + 9 - 4, // t3 = '4'
        32,
        33,         // s1 = ':' lights both indicators
        44 + 9 - 5, // t4 = '5'
        34 + 9 - 6, // t5 = '6'
        1,          // s2 = '.' lights the bottom indicator only
        22 + 9 - 7, // t6 = '7'
        12 + 9 - 8, // t7 = '8'
                    // t8 sees '9', which the multi-glyph alphabet rejects: it stays dark
    ];
    expected.sort();
    assert_eq!(set_bit_positions(&raw), expected);
}

#[test]
fn forced_visible_separators_light_both_indicator_pairs() {
    let mut msg = NCS3148CMessage::from_string("12:34:56.789 ".to_string(), no_lingers());
    // Force every separator visible, as the flicker animation would on a
    // visible frame.
    msg.set_tube(2, ':').unwrap();
    msg.set_tube(5, ':').unwrap();
    let raw = bool_vec_of(&msg.to_raw());
    for pos in [64, 65, 32, 33] {
        assert!(raw[pos], "separator bit {}", pos);
    }
}

#[test]
fn to_bytes_packs_most_significant_bit_first() {
    let mut msg = blank_ncs3148c();
    msg.set_tube(8, '.').unwrap(); // s2 bottom indicator: register bit 1
    let bytes = msg.to_raw_bytes();
    assert_eq!(bytes.len(), 12);
    assert_eq!(bytes[0], 0b0100_0000);
    for b in &bytes[1..] {
        assert_eq!(*b, 0);
    }
}

#[test]
fn set_tube_rejects_out_of_range_index() {
    let mut msg = blank_ncs3148c();
    assert_eq!(
        msg.set_tube(12, '1'),
        Err(DisplayMessageError::TubeIndexOutOfRange)
    );
    let mut small = NCS3186Message::from_string("12:34:56".to_string(), no_lingers());
    assert_eq!(
        small.set_tube(8, '1'),
        Err(DisplayMessageError::TubeIndexOutOfRange)
    );
}

#[test]
fn set_tube_rejects_wrong_alphabet() {
    let mut msg = blank_ncs3148c();
    assert_eq!(
        msg.set_tube(0, ':'),
        Err(DisplayMessageError::UnexpectedCharForTubeType)
    );
    assert_eq!(
        msg.set_tube(2, '7'),
        Err(DisplayMessageError::UnexpectedCharForTubeType)
    );
    assert_eq!(
        msg.set_tube(11, '7'),
        Err(DisplayMessageError::UnexpectedCharForTubeType)
    );
    // A rejection leaves the slot untouched.
    assert_eq!(msg.to_raw_bytes(), vec![0u8; 12]);
}

#[test]
fn set_from_string_skips_starred_slots() {
    let mut msg = NCS3148CMessage::from_string("12:34:56.789 ".to_string(), no_lingers());
    let before = msg.to_raw_bytes();
    msg.set_from_string("**********".to_string()).unwrap();
    assert_eq!(msg.to_raw_bytes(), before);
    msg.set_from_string("9*********".to_string()).unwrap();
    let raw = bool_vec_of(&msg.to_raw());
    assert!(raw[86], "t0 now shows '9'");
}

#[test]
fn set_from_string_reports_first_rejection() {
    let mut msg = blank_ncs3148c();
    assert_eq!(
        msg.set_from_string("1x".to_string()),
        Err(DisplayMessageError::UnexpectedCharForTubeType)
    );
    // The slot before the rejection was already assigned.
    assert!(bool_vec_of(&msg.to_raw())[86 + 8]);
    // '9' lands on the multi-glyph slot, whose alphabet rejects digits.
    let mut msg = blank_ncs3148c();
    assert_eq!(
        msg.set_from_string("12:34:56.789 ".to_string()),
        Err(DisplayMessageError::UnexpectedCharForTubeType)
    );
    // A thirteenth character falls past the last slot.
    let mut msg = blank_ncs3148c();
    assert_eq!(
        msg.set_from_string("12:34:56.78℃ ".to_string()),
        Err(DisplayMessageError::TubeIndexOutOfRange)
    );
}

#[test]
fn set_lingers_merges_only_supplied_values() {
    let mut msg = NCS3148CMessage::from_string(
        "12:34:56.789 ".to_string(),
        LingerDurations { off: Some(7), on: Some(8) },
    );
    msg.set_lingers(LingerDurations { off: Some(0), on: None }).unwrap();
    assert_eq!(msg.get_off_linger(), Some(0));
    assert_eq!(msg.get_on_linger(), Some(8));
    msg.set_lingers(LingerDurations { off: None, on: Some(99) }).unwrap();
    assert_eq!(msg.get_off_linger(), Some(0));
    assert_eq!(msg.get_on_linger(), Some(99));
}
