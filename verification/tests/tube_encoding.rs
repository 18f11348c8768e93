use nixie_clock::bits::bool_vec_of;
use nixie_clock::tube_objects::{
    IN19ABitsIndex, IN19ATube, NumericBitsIndex, NumericTube, Separator, SeparatorBitsIndex,
};

fn bits_of(bv: &bit_vec::BitVec<u8>) -> Vec<bool> {
    bool_vec_of(bv)
}

#[test]
fn numeric_digit_patterns_are_one_hot() {
    let digits = ['0', '1', '2', '3', '4', '5', '6', '7', '8', '9'];
    for (d, c) in digits.iter().enumerate() {
        let tube = NumericTube::from_char(*c).expect("digit must encode");
        let bits = bits_of(&tube.get_bits());
        assert_eq!(bits.len(), 10);
        let expected_position = 9 - d;
        for (i, b) in bits.iter().enumerate() {
            assert_eq!(*b, i == expected_position, "digit {} bit {}", d, i);
        }
    }
}

#[test]
fn numeric_rejects_other_characters() {
    assert!(NumericTube::from_char('x').is_none());
    assert!(NumericTube::from_char(' ').is_none());
    assert!(NumericTube::from_char(':').is_none());
}

#[test]
fn numeric_blank_has_no_set_bit() {
    let tube = NumericTube::new(NumericBitsIndex::BLANK);
    let bits = bits_of(&tube.get_bits());
    assert_eq!(bits, vec![false; 10]);
}

#[test]
fn numeric_set_cathode_replaces_pattern() {
    let mut tube = NumericTube::new(NumericBitsIndex::_0);
    tube.set_cathode(NumericBitsIndex::_9);
    let bits = bits_of(&tube.get_bits());
    for (i, b) in bits.iter().enumerate() {
        assert_eq!(*b, i == 0, "bit {}", i);
    }
}

#[test]
fn glyph_aliases_share_a_cathode() {
    for c in ['℃', 'c', 'C'] {
        let tube = IN19ATube::from_char(c).expect("Celsius alias must encode");
        let bits = bits_of(&tube.get_bits());
        for (i, b) in bits.iter().enumerate() {
            assert_eq!(*b, i == 2, "char {:?} bit {}", c, i);
        }
    }
    let percent = IN19ATube::from_char('%').unwrap();
    assert!(bits_of(&percent.get_bits())[9]);
}

#[test]
fn glyph_rejects_space_and_unknown() {
    assert!(IN19ATube::from_char(' ').is_none());
    assert!(IN19ATube::from_char('x').is_none());
    assert!(IN19ATube::from_char('0').is_none());
}

#[test]
fn glyph_blank_index_has_no_set_bit() {
    let tube = IN19ATube::new(IN19ABitsIndex::Blank);
    assert_eq!(bits_of(&tube.get_bits()), vec![false; 10]);
}

#[test]
fn separator_alphabet_patterns() {
    let both = Separator::from_char(':').unwrap();
    assert_eq!(bits_of(&both.get_bits()), vec![true, true]);
    let bottom = Separator::from_char('.').unwrap();
    assert_eq!(bits_of(&bottom.get_bits()), vec![false, true]);
    let top = Separator::from_char('\'').unwrap();
    assert_eq!(bits_of(&top.get_bits()), vec![true, false]);
    let blank = Separator::from_char(' ').unwrap();
    assert_eq!(bits_of(&blank.get_bits()), vec![false, false]);
    assert!(Separator::from_char('x').is_none());
}

#[test]
fn separator_new_matches_from_char() {
    let tube = Separator::new(SeparatorBitsIndex::BOTH);
    assert_eq!(bits_of(&tube.get_bits()), vec![true, true]);
    let tube = Separator::new(SeparatorBitsIndex::BLANK);
    assert_eq!(bits_of(&tube.get_bits()), vec![false, false]);
}
