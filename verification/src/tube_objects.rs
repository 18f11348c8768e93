//! Tube encoder: maps a semantic character to the fixed-width cathode bit
//! pattern of one physical tube class.
//!
//! Every tube holds either no lit cathode (a legal "blank") or exactly one,
//! so each pattern is all-zero or a one-hot sequence of its class's width.

use vstd::prelude::*;

use crate::bits::{bit_seq, bv_from_elem, bv_set, zero_bits};

verus! {

/// Bit width of a ten-position cathode selector tube.
pub const NUMERIC_TUBE_BITS: usize = 10;

/// Bit width of a separator tube (top and bottom indicator).
pub const SEPARATOR_BITS: usize = 2;

/// A sequence of `n` bits with exactly the bit at `hot` set; all-zero when
/// `hot` lies outside `0 .. n`.
pub open spec fn one_hot(n: nat, hot: int) -> Seq<bool> {
    Seq::new(n, |i: int| i == hot)
}

/// Cathode positions of a numeric tube. Digit `d` lights cathode `9 - d`:
/// the wiring runs from `'9'` at position 0 up to `'0'` at position 9.
#[derive(Debug, Copy, Clone, PartialEq, Eq, Structural)]
pub enum NumericBitsIndex {
    _0,
    _1,
    _2,
    _3,
    _4,
    _5,
    _6,
    _7,
    _8,
    _9,
    BLANK,
}

impl NumericBitsIndex {
    /// The cathode position selected; 10 stands for no cathode (blank).
    pub open spec fn position(self) -> int {
        match self {
            NumericBitsIndex::_0 => 9,
            NumericBitsIndex::_1 => 8,
            NumericBitsIndex::_2 => 7,
            NumericBitsIndex::_3 => 6,
            NumericBitsIndex::_4 => 5,
            NumericBitsIndex::_5 => 4,
            NumericBitsIndex::_6 => 3,
            NumericBitsIndex::_7 => 2,
            NumericBitsIndex::_8 => 1,
            NumericBitsIndex::_9 => 0,
            NumericBitsIndex::BLANK => 10,
        }
    }
}

/// The cathode position a numeric tube lights for `c`, or `None` when `c` is
/// not a decimal digit.
pub open spec fn numeric_position_for(c: char) -> Option<int> {
    match c {
        '0' => Some(9int),
        '1' => Some(8int),
        '2' => Some(7int),
        '3' => Some(6int),
        '4' => Some(5int),
        '5' => Some(4int),
        '6' => Some(3int),
        '7' => Some(2int),
        '8' => Some(1int),
        '9' => Some(0int),
        _ => None,
    }
}

/// A ten-position cathode selector tube showing one decimal digit.
pub struct NumericTube {
    bits: bit_vec::BitVec<u8>,
}

impl NumericTube {
    /// The tube's cathode bit pattern, position 0 first.
    pub closed spec fn view(&self) -> Seq<bool> {
        bit_seq(self.bits)
    }

    /// The pattern has the fixed numeric width and lights exactly zero
    /// or one cathode: every reachable pattern is `one_hot` of some
    /// position, with position 10 standing for the legal all-dark blank.
    pub open spec fn wf(&self) -> bool {
        &&& self.view().len() == NUMERIC_TUBE_BITS
        &&& exists|p: int|
            0 <= p <= NUMERIC_TUBE_BITS && self.view() == one_hot(NUMERIC_TUBE_BITS as nat, p)
    }

    /// Builds a tube lighting the given cathode, or a blank one.
    pub fn new(bit_index: NumericBitsIndex) -> (r: NumericTube)
        ensures
            r.wf(),
            r.view() == one_hot(NUMERIC_TUBE_BITS as nat, bit_index.position()),
    {
        let mut tube = NumericTube { bits: bv_from_elem(NUMERIC_TUBE_BITS, false) };
        proof {
            assert(tube.view() =~= one_hot(NUMERIC_TUBE_BITS as nat, NUMERIC_TUBE_BITS as int));
        }
        tube.set_cathode(bit_index);
        tube
    }

    /// Clears the pattern, then lights the selected cathode (none for
    /// `BLANK`).
    pub fn set_cathode(&mut self, bit_index: NumericBitsIndex)
        requires
            old(self).wf(),
        ensures
            final(self).wf(),
            final(self).view() == one_hot(NUMERIC_TUBE_BITS as nat, bit_index.position()),
    {
        self.bits = bv_from_elem(NUMERIC_TUBE_BITS, false);
        match bit_index {
            NumericBitsIndex::BLANK => (),
            NumericBitsIndex::_0 => bv_set(&mut self.bits, 9, true),
            NumericBitsIndex::_1 => bv_set(&mut self.bits, 8, true),
            NumericBitsIndex::_2 => bv_set(&mut self.bits, 7, true),
            NumericBitsIndex::_3 => bv_set(&mut self.bits, 6, true),
            NumericBitsIndex::_4 => bv_set(&mut self.bits, 5, true),
            NumericBitsIndex::_5 => bv_set(&mut self.bits, 4, true),
            NumericBitsIndex::_6 => bv_set(&mut self.bits, 3, true),
            NumericBitsIndex::_7 => bv_set(&mut self.bits, 2, true),
            NumericBitsIndex::_8 => bv_set(&mut self.bits, 1, true),
            NumericBitsIndex::_9 => bv_set(&mut self.bits, 0, true),
        }
        proof {
            assert(final(self).view() =~= one_hot(
                NUMERIC_TUBE_BITS as nat,
                bit_index.position(),
            ));
        }
    }

    /// Strict encode: a decimal digit gives its one-hot pattern, anything
    /// else is rejected with `None`.
    pub fn from_char(c: char) -> (r: Option<NumericTube>)
        ensures
            match numeric_position_for(c) {
                Some(p) => r matches Some(t) && t.wf() && t.view() == one_hot(
                    NUMERIC_TUBE_BITS as nat,
                    p,
                ),
                None => r is None,
            },
    {
        let bit_index = match c {
            '0' => NumericBitsIndex::_0,
            '1' => NumericBitsIndex::_1,
            '2' => NumericBitsIndex::_2,
            '3' => NumericBitsIndex::_3,
            '4' => NumericBitsIndex::_4,
            '5' => NumericBitsIndex::_5,
            '6' => NumericBitsIndex::_6,
            '7' => NumericBitsIndex::_7,
            '8' => NumericBitsIndex::_8,
            '9' => NumericBitsIndex::_9,
            _ => {
                return None;
            },
        };
        Some(NumericTube::new(bit_index))
    }

    /// A fresh copy of the cathode bit pattern.
    pub fn get_bits(&self) -> (r: bit_vec::BitVec<u8>)
        ensures
            bit_seq(r) == self.view(),
    {
        crate::bits::bv_clone(&self.bits)
    }
}

/// Cathode positions of the multi-glyph (IN-19A style) tube, laid out
/// `_ _ ℃ μ η κ ₘ Ρ Μ %` from position 0.
#[derive(Debug, Copy, Clone, PartialEq, Eq, Structural)]
pub enum IN19ABitsIndex {
    Celsius,
    Micro,
    Nano,
    Kelvin,
    MSmall,
    P,
    M,
    Percent,
    Blank,
}

impl IN19ABitsIndex {
    /// The cathode position selected; 10 stands for no cathode (blank).
    pub open spec fn position(self) -> int {
        match self {
            IN19ABitsIndex::Celsius => 2,
            IN19ABitsIndex::Micro => 3,
            IN19ABitsIndex::Nano => 4,
            IN19ABitsIndex::Kelvin => 5,
            IN19ABitsIndex::MSmall => 6,
            IN19ABitsIndex::P => 7,
            IN19ABitsIndex::M => 8,
            IN19ABitsIndex::Percent => 9,
            IN19ABitsIndex::Blank => 10,
        }
    }
}

/// The cathode position the multi-glyph tube lights for `c`: each concept is
/// reachable both by its native symbol and by ASCII aliases; anything else,
/// including space, is `None`.
pub open spec fn glyph_position_for(c: char) -> Option<int> {
    match c {
        '℃' => Some(2int),
        'c' => Some(2int),
        'C' => Some(2int),
        'μ' => Some(3int),
        'u' => Some(3int),
        'η' => Some(4int),
        'n' => Some(4int),
        'κ' => Some(5int),
        'k' => Some(5int),
        'K' => Some(5int),
        'ₘ' => Some(6int),
        'm' => Some(6int),
        'P' => Some(7int),
        'Μ' => Some(8int),
        '%' => Some(9int),
        _ => None,
    }
}

/// A ten-position selector tube covering units and special symbols.
pub struct IN19ATube {
    bits: bit_vec::BitVec<u8>,
}

impl IN19ATube {
    /// The tube's cathode bit pattern, position 0 first.
    pub closed spec fn view(&self) -> Seq<bool> {
        bit_seq(self.bits)
    }

    /// The pattern has the fixed numeric width and lights exactly zero
    /// or one cathode: every reachable pattern is `one_hot` of some
    /// position, with position 10 standing for the legal all-dark blank.
    pub open spec fn wf(&self) -> bool {
        &&& self.view().len() == NUMERIC_TUBE_BITS
        &&& exists|p: int|
            0 <= p <= NUMERIC_TUBE_BITS && self.view() == one_hot(NUMERIC_TUBE_BITS as nat, p)
    }

    /// Builds a tube lighting the given cathode, or a blank one.
    pub fn new(bit_index: IN19ABitsIndex) -> (r: IN19ATube)
        ensures
            r.wf(),
            r.view() == one_hot(NUMERIC_TUBE_BITS as nat, bit_index.position()),
    {
        let mut tube = IN19ATube { bits: bv_from_elem(NUMERIC_TUBE_BITS, false) };
        proof {
            assert(tube.view() =~= one_hot(NUMERIC_TUBE_BITS as nat, NUMERIC_TUBE_BITS as int));
        }
        tube.set_cathode(bit_index);
        tube
    }

    /// Clears the pattern, then lights the selected cathode (none for
    /// `Blank`).
    pub fn set_cathode(&mut self, bit_index: IN19ABitsIndex)
        requires
            old(self).wf(),
        ensures
            final(self).wf(),
            final(self).view() == one_hot(NUMERIC_TUBE_BITS as nat, bit_index.position()),
    {
        self.bits = bv_from_elem(NUMERIC_TUBE_BITS, false);
        match bit_index {
            IN19ABitsIndex::Blank => (),
            IN19ABitsIndex::Celsius => bv_set(&mut self.bits, 2, true),
            IN19ABitsIndex::Micro => bv_set(&mut self.bits, 3, true),
            IN19ABitsIndex::Nano => bv_set(&mut self.bits, 4, true),
            IN19ABitsIndex::Kelvin => bv_set(&mut self.bits, 5, true),
            IN19ABitsIndex::MSmall => bv_set(&mut self.bits, 6, true),
            IN19ABitsIndex::P => bv_set(&mut self.bits, 7, true),
            IN19ABitsIndex::M => bv_set(&mut self.bits, 8, true),
            IN19ABitsIndex::Percent => bv_set(&mut self.bits, 9, true),
        }
        proof {
            assert(final(self).view() =~= one_hot(
                NUMERIC_TUBE_BITS as nat,
                bit_index.position(),
            ));
        }
    }

    /// Strict encode: a glyph of the fixed alphabet gives its one-hot
    /// pattern, anything else is rejected with `None`.
    pub fn from_char(c: char) -> (r: Option<IN19ATube>)
        ensures
            match glyph_position_for(c) {
                Some(p) => r matches Some(t) && t.wf() && t.view() == one_hot(
                    NUMERIC_TUBE_BITS as nat,
                    p,
                ),
                None => r is None,
            },
    {
        let bit_index = match c {
            '℃' => IN19ABitsIndex::Celsius,
            'c' => IN19ABitsIndex::Celsius,
            'C' => IN19ABitsIndex::Celsius,
            'μ' => IN19ABitsIndex::Micro,
            'u' => IN19ABitsIndex::Micro,
            'η' => IN19ABitsIndex::Nano,
            'n' => IN19ABitsIndex::Nano,
            'κ' => IN19ABitsIndex::Kelvin,
            'k' => IN19ABitsIndex::Kelvin,
            'K' => IN19ABitsIndex::Kelvin,
            'ₘ' => IN19ABitsIndex::MSmall,
            'm' => IN19ABitsIndex::MSmall,
            'P' => IN19ABitsIndex::P,
            'Μ' => IN19ABitsIndex::M,
            '%' => IN19ABitsIndex::Percent,
            _ => {
                return None;
            },
        };
        Some(IN19ATube::new(bit_index))
    }

    /// A fresh copy of the cathode bit pattern.
    pub fn get_bits(&self) -> (r: bit_vec::BitVec<u8>)
        ensures
            bit_seq(r) == self.view(),
    {
        crate::bits::bv_clone(&self.bits)
    }
}

/// Indicator selection of a separator tube: position 0 is the top lamp,
/// position 1 the bottom lamp.
#[derive(Debug, Copy, Clone, PartialEq, Eq, Structural)]
pub enum SeparatorBitsIndex {
    TOP,
    BOTTOM,
    BOTH,
    BLANK,
}

impl SeparatorBitsIndex {
    /// The two indicator bits selected, top first.
    pub open spec fn pattern(self) -> Seq<bool> {
        match self {
            SeparatorBitsIndex::TOP => seq![true, false],
            SeparatorBitsIndex::BOTTOM => seq![false, true],
            SeparatorBitsIndex::BOTH => seq![true, true],
            SeparatorBitsIndex::BLANK => seq![false, false],
        }
    }
}

/// The indicator selection a separator shows for `c`, or `None` when `c` is
/// not in the separator alphabet. Space is a legal blank here.
pub open spec fn separator_index_for(c: char) -> Option<SeparatorBitsIndex> {
    match c {
        ' ' => Some(SeparatorBitsIndex::BLANK),
        ':' => Some(SeparatorBitsIndex::BOTH),
        '.' => Some(SeparatorBitsIndex::BOTTOM),
        '\'' => Some(SeparatorBitsIndex::TOP),
        _ => None,
    }
}

/// A two-lamp separator tube between digit groups.
pub struct Separator {
    bits: bit_vec::BitVec<u8>,
}

impl Separator {
    /// The tube's indicator bit pattern, top lamp first.
    pub closed spec fn view(&self) -> Seq<bool> {
        bit_seq(self.bits)
    }

    /// The pattern has the fixed separator width.
    pub open spec fn wf(&self) -> bool {
        self.view().len() == SEPARATOR_BITS
    }

    /// Builds a separator showing the given indicator selection.
    pub fn new(bit_index: SeparatorBitsIndex) -> (r: Separator)
        ensures
            r.wf(),
            r.view() == bit_index.pattern(),
    {
        let mut tube = Separator { bits: bv_from_elem(SEPARATOR_BITS, false) };
        tube.set_indicators(bit_index);
        tube
    }

    /// Clears both lamps, then lights the selected ones.
    pub fn set_indicators(&mut self, bit_index: SeparatorBitsIndex)
        requires
            old(self).wf(),
        ensures
            final(self).wf(),
            final(self).view() == bit_index.pattern(),
    {
        self.bits = bv_from_elem(SEPARATOR_BITS, false);
        match bit_index {
            SeparatorBitsIndex::BLANK => (),
            SeparatorBitsIndex::TOP => bv_set(&mut self.bits, 0, true),
            SeparatorBitsIndex::BOTTOM => bv_set(&mut self.bits, 1, true),
            SeparatorBitsIndex::BOTH => {
                bv_set(&mut self.bits, 0, true);
                bv_set(&mut self.bits, 1, true);
            },
        }
        proof {
            assert(final(self).view() =~= bit_index.pattern());
        }
    }

    /// Strict encode: one of the four separator characters gives its
    /// pattern, anything else is rejected with `None`.
    pub fn from_char(c: char) -> (r: Option<Separator>)
        ensures
            match separator_index_for(c) {
                Some(idx) => r matches Some(t) && t.wf() && t.view() == idx.pattern(),
                None => r is None,
            },
    {
        let bit_index = match c {
            ' ' => SeparatorBitsIndex::BLANK,
            ':' => SeparatorBitsIndex::BOTH,
            '.' => SeparatorBitsIndex::BOTTOM,
            '\'' => SeparatorBitsIndex::TOP,
            _ => {
                return None;
            },
        };
        Some(Separator::new(bit_index))
    }

    /// A fresh copy of the indicator bit pattern.
    pub fn get_bits(&self) -> (r: bit_vec::BitVec<u8>)
        ensures
            bit_seq(r) == self.view(),
    {
        crate::bits::bv_clone(&self.bits)
    }
}

/// A digit pattern lights exactly one cathode: the one at the digit's fixed
/// position, and no other.
pub proof fn lemma_digit_encoding_one_hot(c: char)
    requires
        numeric_position_for(c) is Some,
    ensures
        ({
            let p = numeric_position_for(c)->0;
            let bits = one_hot(NUMERIC_TUBE_BITS as nat, p);
            &&& 0 <= p < NUMERIC_TUBE_BITS
            &&& bits[p]
            &&& forall|i: int| 0 <= i < NUMERIC_TUBE_BITS && i != p ==> !bits[i]
        }),
{
}

} // verus!
