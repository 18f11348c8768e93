//! Display messages: an ordered set of optional tubes matching one of the
//! two fixed register layouts, plus the latch linger durations for the
//! frame.
//!
//! Composition to the wire register runs in fixed, reversed tube order (the
//! most significant tube group first); an unpopulated slot contributes an
//! all-zero filler of its class's width, so the packed width is a constant
//! of the layout no matter how many slots are populated.

use vstd::prelude::*;

use crate::bits::{bit_seq, bv_append, bv_from_elem, zero_bits};
use crate::errors::{DisplayMessageError, DisplayMessageResult};
use crate::tube_objects::{
    glyph_position_for, numeric_position_for, one_hot, separator_index_for, IN19ATube, NumericTube,
    Separator, NUMERIC_TUBE_BITS, SEPARATOR_BITS,
};

verus! {

/// The two supported register layouts.
#[derive(Debug, Copy, Clone, PartialEq, Eq, Structural)]
pub enum ClockType {
    NCS3148C,
    NCS3186,
}

/// Latch linger durations for one frame, in microseconds: how long the
/// latch line rests in its first (`off`) and second (`on`) phase after the
/// register is shifted out.
#[derive(Debug, Copy, Clone, PartialEq, Eq, Structural)]
pub struct LingerDurations {
    pub off: Option<i64>,
    pub on: Option<i64>,
}

/// The tube class wired at one slot of a layout.
#[derive(Debug, Copy, Clone, PartialEq, Eq, Structural)]
pub enum SlotClass {
    Numeric,
    Sep,
    Glyph,
    OutOfRange,
}

/// Whether a character is accepted by the strict encode of `class`.
pub open spec fn char_ok_for(class: SlotClass, c: char) -> bool {
    match class {
        SlotClass::Numeric => numeric_position_for(c) is Some,
        SlotClass::Sep => separator_index_for(c) is Some,
        SlotClass::Glyph => glyph_position_for(c) is Some,
        SlotClass::OutOfRange => false,
    }
}

/// The bits a numeric slot contributes to the register.
pub open spec fn num_slot_bits(slot: Option<NumericTube>) -> Seq<bool> {
    match slot {
        Some(t) => t.view(),
        None => zero_bits(NUMERIC_TUBE_BITS as nat),
    }
}

/// The bits a separator slot contributes to the register.
pub open spec fn sep_slot_bits(slot: Option<Separator>) -> Seq<bool> {
    match slot {
        Some(t) => t.view(),
        None => zero_bits(SEPARATOR_BITS as nat),
    }
}

/// The bits a multi-glyph slot contributes to the register.
pub open spec fn glyph_slot_bits(slot: Option<IN19ATube>) -> Seq<bool> {
    match slot {
        Some(t) => t.view(),
        None => zero_bits(NUMERIC_TUBE_BITS as nat),
    }
}

/// A populated numeric slot holds a well-formed tube.
pub open spec fn num_slot_wf(slot: Option<NumericTube>) -> bool {
    match slot {
        Some(t) => t.wf(),
        None => true,
    }
}

/// A populated separator slot holds a well-formed tube.
pub open spec fn sep_slot_wf(slot: Option<Separator>) -> bool {
    match slot {
        Some(t) => t.wf(),
        None => true,
    }
}

/// A populated multi-glyph slot holds a well-formed tube.
pub open spec fn glyph_slot_wf(slot: Option<IN19ATube>) -> bool {
    match slot {
        Some(t) => t.wf(),
        None => true,
    }
}

/// A numeric slot after a lenient encode of `c`: a digit populates the slot
/// with its one-hot pattern, anything else leaves the slot empty.
pub open spec fn num_slot_lenient(slot: Option<NumericTube>, c: char) -> bool {
    match numeric_position_for(c) {
        Some(p) => slot matches Some(t) && t.wf() && t.view() == one_hot(
            NUMERIC_TUBE_BITS as nat,
            p,
        ),
        None => slot is None,
    }
}

/// A separator slot after a lenient encode of `c`.
pub open spec fn sep_slot_lenient(slot: Option<Separator>, c: char) -> bool {
    match separator_index_for(c) {
        Some(idx) => slot matches Some(t) && t.wf() && t.view() == idx.pattern(),
        None => slot is None,
    }
}

/// A multi-glyph slot after a lenient encode of `c`.
pub open spec fn glyph_slot_lenient(slot: Option<IN19ATube>, c: char) -> bool {
    match glyph_position_for(c) {
        Some(p) => slot matches Some(t) && t.wf() && t.view() == one_hot(
            NUMERIC_TUBE_BITS as nat,
            p,
        ),
        None => slot is None,
    }
}

/// Lenient encode of one numeric slot.
fn num_slot_from_char(c: char) -> (r: Option<NumericTube>)
    ensures
        num_slot_lenient(r, c),
{
    NumericTube::from_char(c)
}

/// Lenient encode of one separator slot.
fn sep_slot_from_char(c: char) -> (r: Option<Separator>)
    ensures
        sep_slot_lenient(r, c),
{
    Separator::from_char(c)
}

/// Lenient encode of one multi-glyph slot.
fn glyph_slot_from_char(c: char) -> (r: Option<IN19ATube>)
    ensures
        glyph_slot_lenient(r, c),
{
    IN19ATube::from_char(c)
}

/// The register contribution of one numeric slot, as a fresh bit vector.
fn num_slot_bits_exec(slot: &Option<NumericTube>) -> (r: bit_vec::BitVec<u8>)
    requires
        num_slot_wf(*slot),
    ensures
        bit_seq(r) == num_slot_bits(*slot),
        bit_seq(r).len() == NUMERIC_TUBE_BITS,
{
    match slot {
        Some(t) => t.get_bits(),
        None => {
            let r = bv_from_elem(NUMERIC_TUBE_BITS, false);
            proof {
                assert(bit_seq(r) =~= zero_bits(NUMERIC_TUBE_BITS as nat));
            }
            r
        },
    }
}

/// The register contribution of one separator slot, as a fresh bit vector.
fn sep_slot_bits_exec(slot: &Option<Separator>) -> (r: bit_vec::BitVec<u8>)
    requires
        sep_slot_wf(*slot),
    ensures
        bit_seq(r) == sep_slot_bits(*slot),
        bit_seq(r).len() == SEPARATOR_BITS,
{
    match slot {
        Some(t) => t.get_bits(),
        None => {
            let r = bv_from_elem(SEPARATOR_BITS, false);
            proof {
                assert(bit_seq(r) =~= zero_bits(SEPARATOR_BITS as nat));
            }
            r
        },
    }
}

/// The register contribution of one multi-glyph slot, as a fresh bit vector.
fn glyph_slot_bits_exec(slot: &Option<IN19ATube>) -> (r: bit_vec::BitVec<u8>)
    requires
        glyph_slot_wf(*slot),
    ensures
        bit_seq(r) == glyph_slot_bits(*slot),
        bit_seq(r).len() == NUMERIC_TUBE_BITS,
{
    match slot {
        Some(t) => t.get_bits(),
        None => {
            let r = bv_from_elem(NUMERIC_TUBE_BITS, false);
            proof {
                assert(bit_seq(r) =~= zero_bits(NUMERIC_TUBE_BITS as nat));
            }
            r
        },
    }
}

/// The eight-slot layout: six numeric tubes and two separators. It shares
/// the 96-bit wire protocol of the larger layout, padding the absent top
/// tube group with zero filler.
pub struct NCS3186Message {
    pub t0: Option<NumericTube>,
    pub t1: Option<NumericTube>,
    pub s0: Option<Separator>,
    pub t2: Option<NumericTube>,
    pub t3: Option<NumericTube>,
    pub s1: Option<Separator>,
    pub t4: Option<NumericTube>,
    pub t5: Option<NumericTube>,
    pub lingers: LingerDurations,
}

impl NCS3186Message {
    /// Every populated slot holds a well-formed tube.
    pub open spec fn wf(&self) -> bool {
        &&& num_slot_wf(self.t0)
        &&& num_slot_wf(self.t1)
        &&& sep_slot_wf(self.s0)
        &&& num_slot_wf(self.t2)
        &&& num_slot_wf(self.t3)
        &&& sep_slot_wf(self.s1)
        &&& num_slot_wf(self.t4)
        &&& num_slot_wf(self.t5)
    }

    /// The flat wire register: zero filler for the absent top tube group,
    /// then the tube groups in reversed order as for the larger layout.
    pub open spec fn raw_bits(&self) -> Seq<bool> {
        zero_bits(SEPARATOR_BITS as nat) + zero_bits(NUMERIC_TUBE_BITS as nat) + zero_bits(
            NUMERIC_TUBE_BITS as nat,
        ) + zero_bits(NUMERIC_TUBE_BITS as nat) + sep_slot_bits(self.s1) + num_slot_bits(self.t5)
            + num_slot_bits(self.t4) + num_slot_bits(self.t3) + sep_slot_bits(self.s0)
            + num_slot_bits(self.t2) + num_slot_bits(self.t1) + num_slot_bits(self.t0)
    }

    /// The tube class wired at each slot index.
    pub open spec fn slot_class(idx: int) -> SlotClass {
        if idx == 2 || idx == 5 {
            SlotClass::Sep
        } else if 0 <= idx < 8 {
            SlotClass::Numeric
        } else {
            SlotClass::OutOfRange
        }
    }

    /// Composes the register. Its width is 96 bits however many slots are
    /// populated.
    pub fn to_raw(&self) -> (r: bit_vec::BitVec<u8>)
        requires
            self.wf(),
        ensures
            bit_seq(r) == self.raw_bits(),
            bit_seq(r).len() == 96,
    {
        let mut acc = bv_from_elem(0, false);
        proof {
            assert(bit_seq(acc) =~= Seq::<bool>::empty());
        }
        let mut part = bv_from_elem(SEPARATOR_BITS, false);
        proof {
            assert(bit_seq(part) =~= zero_bits(SEPARATOR_BITS as nat));
        }
        bv_append(&mut acc, &mut part);
        let mut part = bv_from_elem(NUMERIC_TUBE_BITS, false);
        proof {
            assert(bit_seq(part) =~= zero_bits(NUMERIC_TUBE_BITS as nat));
        }
        bv_append(&mut acc, &mut part);
        let mut part = bv_from_elem(NUMERIC_TUBE_BITS, false);
        proof {
            assert(bit_seq(part) =~= zero_bits(NUMERIC_TUBE_BITS as nat));
        }
        bv_append(&mut acc, &mut part);
        let mut part = bv_from_elem(NUMERIC_TUBE_BITS, false);
        proof {
            assert(bit_seq(part) =~= zero_bits(NUMERIC_TUBE_BITS as nat));
        }
        bv_append(&mut acc, &mut part);
        let mut part = sep_slot_bits_exec(&self.s1);
        bv_append(&mut acc, &mut part);
        let mut part = num_slot_bits_exec(&self.t5);
        bv_append(&mut acc, &mut part);
        let mut part = num_slot_bits_exec(&self.t4);
        bv_append(&mut acc, &mut part);
        let mut part = num_slot_bits_exec(&self.t3);
        bv_append(&mut acc, &mut part);
        let mut part = sep_slot_bits_exec(&self.s0);
        bv_append(&mut acc, &mut part);
        let mut part = num_slot_bits_exec(&self.t2);
        bv_append(&mut acc, &mut part);
        let mut part = num_slot_bits_exec(&self.t1);
        bv_append(&mut acc, &mut part);
        let mut part = num_slot_bits_exec(&self.t0);
        bv_append(&mut acc, &mut part);
        proof {
            assert(bit_seq(acc) =~= self.raw_bits());
        }
        acc
    }

    /// The register packed into the bytes shifted out over the wire.
    pub fn to_raw_bytes(&self) -> (r: Vec<u8>)
        requires
            self.wf(),
        ensures
            r@ == crate::bits::packed_bytes(self.raw_bits()),
            r@.len() == 12,
    {
        let raw = self.to_raw();
        crate::bits::bv_to_bytes(&raw)
    }

    /// Builds a message from a rendered time string, leniently: a character
    /// outside its slot's alphabet leaves the slot unpopulated. The string
    /// must cover the eight slots.
    pub fn from_string(time_string: String, lingers: LingerDurations) -> (r: NCS3186Message)
        requires
            time_string@.len() >= 8,
        ensures
            r.wf(),
            num_slot_lenient(r.t0, time_string@[0]),
            num_slot_lenient(r.t1, time_string@[1]),
            sep_slot_lenient(r.s0, time_string@[2]),
            num_slot_lenient(r.t2, time_string@[3]),
            num_slot_lenient(r.t3, time_string@[4]),
            sep_slot_lenient(r.s1, time_string@[5]),
            num_slot_lenient(r.t4, time_string@[6]),
            num_slot_lenient(r.t5, time_string@[7]),
            r.lingers == lingers,
    {
        let s = time_string.as_str();
        NCS3186Message {
            t0: num_slot_from_char(s.get_char(0)),
            t1: num_slot_from_char(s.get_char(1)),
            s0: sep_slot_from_char(s.get_char(2)),
            t2: num_slot_from_char(s.get_char(3)),
            t3: num_slot_from_char(s.get_char(4)),
            s1: sep_slot_from_char(s.get_char(5)),
            t4: num_slot_from_char(s.get_char(6)),
            t5: num_slot_from_char(s.get_char(7)),
            lingers,
        }
    }

    /// The rejection `set_tube` answers for this slot and character, if
    /// any.
    pub open spec fn tube_error_for(idx: int, c: char) -> Option<DisplayMessageError> {
        if !(0 <= idx < 8) {
            Some(DisplayMessageError::TubeIndexOutOfRange)
        } else if !char_ok_for(Self::slot_class(idx), c) {
            Some(DisplayMessageError::UnexpectedCharForTubeType)
        } else {
            None
        }
    }

    /// All slots except `idx`, and the lingers, agree between `a` and `b`.
    pub open spec fn eq_except(a: Self, b: Self, idx: int) -> bool {
        &&& idx != 0 ==> b.t0 == a.t0
        &&& idx != 1 ==> b.t1 == a.t1
        &&& idx != 2 ==> b.s0 == a.s0
        &&& idx != 3 ==> b.t2 == a.t2
        &&& idx != 4 ==> b.t3 == a.t3
        &&& idx != 5 ==> b.s1 == a.s1
        &&& idx != 6 ==> b.t4 == a.t4
        &&& idx != 7 ==> b.t5 == a.t5
        &&& b.lingers == a.lingers
    }

    /// Slot `idx` of `m` holds the encoding of `c`.
    pub open spec fn slot_encodes(m: Self, idx: int, c: char) -> bool {
        if idx == 0 {
            num_slot_lenient(m.t0, c)
        } else if idx == 1 {
            num_slot_lenient(m.t1, c)
        } else if idx == 2 {
            sep_slot_lenient(m.s0, c)
        } else if idx == 3 {
            num_slot_lenient(m.t2, c)
        } else if idx == 4 {
            num_slot_lenient(m.t3, c)
        } else if idx == 5 {
            sep_slot_lenient(m.s1, c)
        } else if idx == 6 {
            num_slot_lenient(m.t4, c)
        } else if idx == 7 {
            num_slot_lenient(m.t5, c)
        } else {
            false
        }
    }

    /// Strict assignment of one slot: rejects out-of-range indices and
    /// characters outside the slot's alphabet, and then leaves the message
    /// untouched.
    pub fn set_tube(&mut self, tube_idx: usize, disp: char) -> (r: DisplayMessageResult<()>)
        ensures
            match Self::tube_error_for(tube_idx as int, disp) {
                Some(e) => r == Err::<(), DisplayMessageError>(e) && *final(self) == *old(self),
                None => r is Ok && Self::slot_encodes(*final(self), tube_idx as int, disp)
                    && Self::eq_except(*old(self), *final(self), tube_idx as int),
            },
    {
        match tube_idx {
            0 => match NumericTube::from_char(disp) {
                Some(t) => self.t0 = Some(t),
                None => {
                    return Err(DisplayMessageError::UnexpectedCharForTubeType);
                },
            },
            1 => match NumericTube::from_char(disp) {
                Some(t) => self.t1 = Some(t),
                None => {
                    return Err(DisplayMessageError::UnexpectedCharForTubeType);
                },
            },
            2 => match Separator::from_char(disp) {
                Some(t) => self.s0 = Some(t),
                None => {
                    return Err(DisplayMessageError::UnexpectedCharForTubeType);
                },
            },
            3 => match NumericTube::from_char(disp) {
                Some(t) => self.t2 = Some(t),
                None => {
                    return Err(DisplayMessageError::UnexpectedCharForTubeType);
                },
            },
            4 => match NumericTube::from_char(disp) {
                Some(t) => self.t3 = Some(t),
                None => {
                    return Err(DisplayMessageError::UnexpectedCharForTubeType);
                },
            },
            5 => match Separator::from_char(disp) {
                Some(t) => self.s1 = Some(t),
                None => {
                    return Err(DisplayMessageError::UnexpectedCharForTubeType);
                },
            },
            6 => match NumericTube::from_char(disp) {
                Some(t) => self.t4 = Some(t),
                None => {
                    return Err(DisplayMessageError::UnexpectedCharForTubeType);
                },
            },
            7 => match NumericTube::from_char(disp) {
                Some(t) => self.t5 = Some(t),
                None => {
                    return Err(DisplayMessageError::UnexpectedCharForTubeType);
                },
            },
            _ => {
                return Err(DisplayMessageError::TubeIndexOutOfRange);
            },
        }
        Ok(())
    }

    /// Position `i` of `s` would be rejected by `set_tube` (and is not the
    /// `'*'` skip marker).
    pub open spec fn reject_at(s: Seq<char>, i: int) -> bool {
        s[i] != '*' && !char_ok_for(Self::slot_class(i), s[i])
    }

    /// The first position at or after `i` that `set_from_string` rejects,
    /// or -1 when there is none.
    pub open spec fn first_reject_from(s: Seq<char>, i: int) -> int
        decreases s.len() - i,
    {
        if i < 0 || i >= s.len() {
            -1
        } else if Self::reject_at(s, i) {
            i
        } else {
            Self::first_reject_from(s, i + 1)
        }
    }

    /// One numeric slot after `set_from_string` has processed the first
    /// `upto` characters: within the processed prefix a non-skip character
    /// has been encoded, everything else is untouched.
    pub open spec fn prefix_slot_num(
        a: Option<NumericTube>,
        b: Option<NumericTube>,
        s: Seq<char>,
        upto: int,
        k: int,
    ) -> bool {
        if k < upto && k < s.len() && s[k] != '*' {
            num_slot_lenient(b, s[k])
        } else {
            b == a
        }
    }

    /// One separator slot after `set_from_string` has processed the first
    /// `upto` characters.
    pub open spec fn prefix_slot_sep(
        a: Option<Separator>,
        b: Option<Separator>,
        s: Seq<char>,
        upto: int,
        k: int,
    ) -> bool {
        if k < upto && k < s.len() && s[k] != '*' {
            sep_slot_lenient(b, s[k])
        } else {
            b == a
        }
    }

    /// The whole message after `set_from_string` has processed the first
    /// `upto` characters of `s`.
    pub open spec fn updated_to(o: Self, n: Self, s: Seq<char>, upto: int) -> bool {
        &&& Self::prefix_slot_num(o.t0, n.t0, s, upto, 0)
        &&& Self::prefix_slot_num(o.t1, n.t1, s, upto, 1)
        &&& Self::prefix_slot_sep(o.s0, n.s0, s, upto, 2)
        &&& Self::prefix_slot_num(o.t2, n.t2, s, upto, 3)
        &&& Self::prefix_slot_num(o.t3, n.t3, s, upto, 4)
        &&& Self::prefix_slot_sep(o.s1, n.s1, s, upto, 5)
        &&& Self::prefix_slot_num(o.t4, n.t4, s, upto, 6)
        &&& Self::prefix_slot_num(o.t5, n.t5, s, upto, 7)
        &&& n.lingers == o.lingers
    }

    /// Strict assignment from a whole string, slot by slot; `'*'` skips a
    /// slot. Stops at the first rejected position and reports its error,
    /// leaving the slots processed up to there assigned.
    pub fn set_from_string(&mut self, time_string: String) -> (r: DisplayMessageResult<()>)
        ensures
            ({
                let s = time_string@;
                let fb = Self::first_reject_from(s, 0);
                if fb == -1 {
                    r is Ok && Self::updated_to(*old(self), *final(self), s, s.len() as int)
                } else {
                    r == Err::<(), DisplayMessageError>(
                        if fb >= 8 {
                            DisplayMessageError::TubeIndexOutOfRange
                        } else {
                            DisplayMessageError::UnexpectedCharForTubeType
                        },
                    ) && Self::updated_to(*old(self), *final(self), s, fb)
                }
            }),
    {
        let s = time_string.as_str();
        let len = s.unicode_len();
        let mut i: usize = 0;
        while i < len
            invariant
                len == s@.len(),
                s@ == time_string@,
                i <= len,
                Self::first_reject_from(s@, 0) == Self::first_reject_from(s@, i as int),
                Self::updated_to(*old(self), *self, s@, i as int),
            decreases len - i,
        {
            let c = s.get_char(i);
            if c != '*' {
                match self.set_tube(i, c) {
                    Ok(_) => {
                        proof {
                            assert(!Self::reject_at(s@, i as int));
                            assert(Self::updated_to(*old(self), *self, s@, i as int + 1));
                        }
                    },
                    Err(e) => {
                        proof {
                            assert(Self::reject_at(s@, i as int));
                            assert(Self::first_reject_from(s@, i as int) == i as int);
                        }
                        return Err(e);
                    },
                }
            } else {
                proof {
                    assert(!Self::reject_at(s@, i as int));
                    assert(Self::updated_to(*old(self), *self, s@, i as int + 1));
                }
            }
            i += 1;
        }
        Ok(())
    }

    pub fn get_off_linger(&self) -> (r: Option<i64>)
        ensures
            r == self.lingers.off,
    {
        self.lingers.off
    }

    pub fn get_on_linger(&self) -> (r: Option<i64>)
        ensures
            r == self.lingers.on,
    {
        self.lingers.on
    }

    /// Overrides whichever linger durations the caller supplies; a `None`
    /// keeps the present value.
    pub fn set_lingers(&mut self, lingers: LingerDurations) -> (r: DisplayMessageResult<()>)
        ensures
            r is Ok,
            final(self).lingers.off == if lingers.off is Some {
                lingers.off
            } else {
                old(self).lingers.off
            },
            final(self).lingers.on == if lingers.on is Some {
                lingers.on
            } else {
                old(self).lingers.on
            },
            final(self).t0 == old(self).t0,
            final(self).t1 == old(self).t1,
            final(self).s0 == old(self).s0,
            final(self).t2 == old(self).t2,
            final(self).t3 == old(self).t3,
            final(self).s1 == old(self).s1,
            final(self).t4 == old(self).t4,
            final(self).t5 == old(self).t5,
    {
        if lingers.off.is_some() {
            self.lingers.off = lingers.off;
        }
        if lingers.on.is_some() {
            self.lingers.on = lingers.on;
        }
        Ok(())
    }
}

/// The twelve-slot layout: eight numeric tubes, three separators and one
/// multi-glyph tube, packing to a 96-bit register.
pub struct NCS3148CMessage {
    pub t0: Option<NumericTube>,
    pub t1: Option<NumericTube>,
    pub s0: Option<Separator>,
    pub t2: Option<NumericTube>,
    pub t3: Option<NumericTube>,
    pub s1: Option<Separator>,
    pub t4: Option<NumericTube>,
    pub t5: Option<NumericTube>,
    pub s2: Option<Separator>,
    pub t6: Option<NumericTube>,
    pub t7: Option<NumericTube>,
    pub t8: Option<IN19ATube>,
    pub lingers: LingerDurations,
}

impl NCS3148CMessage {
    /// Every populated slot holds a well-formed tube.
    pub open spec fn wf(&self) -> bool {
        &&& num_slot_wf(self.t0)
        &&& num_slot_wf(self.t1)
        &&& sep_slot_wf(self.s0)
        &&& num_slot_wf(self.t2)
        &&& num_slot_wf(self.t3)
        &&& sep_slot_wf(self.s1)
        &&& num_slot_wf(self.t4)
        &&& num_slot_wf(self.t5)
        &&& sep_slot_wf(self.s2)
        &&& num_slot_wf(self.t6)
        &&& num_slot_wf(self.t7)
        &&& glyph_slot_wf(self.t8)
    }

    /// The flat wire register: tube groups concatenated from the most
    /// significant group down, a hardware contract of the shift-register
    /// wiring.
    pub open spec fn raw_bits(&self) -> Seq<bool> {
        sep_slot_bits(self.s2) + glyph_slot_bits(self.t8) + num_slot_bits(self.t7) + num_slot_bits(
            self.t6,
        ) + sep_slot_bits(self.s1) + num_slot_bits(self.t5) + num_slot_bits(self.t4)
            + num_slot_bits(self.t3) + sep_slot_bits(self.s0) + num_slot_bits(self.t2)
            + num_slot_bits(self.t1) + num_slot_bits(self.t0)
    }

    /// The tube class wired at each slot index.
    pub open spec fn slot_class(idx: int) -> SlotClass {
        if idx == 2 || idx == 5 || idx == 8 {
            SlotClass::Sep
        } else if idx == 11 {
            SlotClass::Glyph
        } else if 0 <= idx < 12 {
            SlotClass::Numeric
        } else {
            SlotClass::OutOfRange
        }
    }

    /// Composes the register. Its width is 96 bits however many slots are
    /// populated.
    pub fn to_raw(&self) -> (r: bit_vec::BitVec<u8>)
        requires
            self.wf(),
        ensures
            bit_seq(r) == self.raw_bits(),
            bit_seq(r).len() == 96,
    {
        let mut acc = bv_from_elem(0, false);
        proof {
            assert(bit_seq(acc) =~= Seq::<bool>::empty());
        }
        let mut part = sep_slot_bits_exec(&self.s2);
        bv_append(&mut acc, &mut part);
        let mut part = glyph_slot_bits_exec(&self.t8);
        bv_append(&mut acc, &mut part);
        let mut part = num_slot_bits_exec(&self.t7);
        bv_append(&mut acc, &mut part);
        let mut part = num_slot_bits_exec(&self.t6);
        bv_append(&mut acc, &mut part);
        let mut part = sep_slot_bits_exec(&self.s1);
        bv_append(&mut acc, &mut part);
        let mut part = num_slot_bits_exec(&self.t5);
        bv_append(&mut acc, &mut part);
        let mut part = num_slot_bits_exec(&self.t4);
        bv_append(&mut acc, &mut part);
        let mut part = num_slot_bits_exec(&self.t3);
        bv_append(&mut acc, &mut part);
        let mut part = sep_slot_bits_exec(&self.s0);
        bv_append(&mut acc, &mut part);
        let mut part = num_slot_bits_exec(&self.t2);
        bv_append(&mut acc, &mut part);
        let mut part = num_slot_bits_exec(&self.t1);
        bv_append(&mut acc, &mut part);
        let mut part = num_slot_bits_exec(&self.t0);
        bv_append(&mut acc, &mut part);
        proof {
            assert(bit_seq(acc) =~= self.raw_bits());
        }
        acc
    }

    /// The register packed into the bytes shifted out over the wire.
    pub fn to_raw_bytes(&self) -> (r: Vec<u8>)
        requires
            self.wf(),
        ensures
            r@ == crate::bits::packed_bytes(self.raw_bits()),
            r@.len() == 12,
    {
        let raw = self.to_raw();
        crate::bits::bv_to_bytes(&raw)
    }

    /// Builds a message from a rendered time string, leniently: a character
    /// outside its slot's alphabet leaves the slot unpopulated. The string
    /// must cover the twelve slots.
    pub fn from_string(time_string: String, lingers: LingerDurations) -> (r: NCS3148CMessage)
        requires
            time_string@.len() >= 12,
        ensures
            r.wf(),
            num_slot_lenient(r.t0, time_string@[0]),
            num_slot_lenient(r.t1, time_string@[1]),
            sep_slot_lenient(r.s0, time_string@[2]),
            num_slot_lenient(r.t2, time_string@[3]),
            num_slot_lenient(r.t3, time_string@[4]),
            sep_slot_lenient(r.s1, time_string@[5]),
            num_slot_lenient(r.t4, time_string@[6]),
            num_slot_lenient(r.t5, time_string@[7]),
            sep_slot_lenient(r.s2, time_string@[8]),
            num_slot_lenient(r.t6, time_string@[9]),
            num_slot_lenient(r.t7, time_string@[10]),
            glyph_slot_lenient(r.t8, time_string@[11]),
            r.lingers == lingers,
    {
        let s = time_string.as_str();
        NCS3148CMessage {
            t0: num_slot_from_char(s.get_char(0)),
            t1: num_slot_from_char(s.get_char(1)),
            s0: sep_slot_from_char(s.get_char(2)),
            t2: num_slot_from_char(s.get_char(3)),
            t3: num_slot_from_char(s.get_char(4)),
            s1: sep_slot_from_char(s.get_char(5)),
            t4: num_slot_from_char(s.get_char(6)),
            t5: num_slot_from_char(s.get_char(7)),
            s2: sep_slot_from_char(s.get_char(8)),
            t6: num_slot_from_char(s.get_char(9)),
            t7: num_slot_from_char(s.get_char(10)),
            t8: glyph_slot_from_char(s.get_char(11)),
            lingers,
        }
    }

    /// The rejection `set_tube` answers for this slot and character, if
    /// any: an index outside the layout is a hard error, a character
    /// outside the slot's alphabet a strict-mode rejection.
    pub open spec fn tube_error_for(idx: int, c: char) -> Option<DisplayMessageError> {
        if !(0 <= idx < 12) {
            Some(DisplayMessageError::TubeIndexOutOfRange)
        } else if !char_ok_for(Self::slot_class(idx), c) {
            Some(DisplayMessageError::UnexpectedCharForTubeType)
        } else {
            None
        }
    }

    /// All slots except `idx`, and the lingers, agree between `a` and `b`.
    pub open spec fn eq_except(a: Self, b: Self, idx: int) -> bool {
        &&& idx != 0 ==> b.t0 == a.t0
        &&& idx != 1 ==> b.t1 == a.t1
        &&& idx != 2 ==> b.s0 == a.s0
        &&& idx != 3 ==> b.t2 == a.t2
        &&& idx != 4 ==> b.t3 == a.t3
        &&& idx != 5 ==> b.s1 == a.s1
        &&& idx != 6 ==> b.t4 == a.t4
        &&& idx != 7 ==> b.t5 == a.t5
        &&& idx != 8 ==> b.s2 == a.s2
        &&& idx != 9 ==> b.t6 == a.t6
        &&& idx != 10 ==> b.t7 == a.t7
        &&& idx != 11 ==> b.t8 == a.t8
        &&& b.lingers == a.lingers
    }

    /// Slot `idx` of `m` holds the encoding of `c`.
    pub open spec fn slot_encodes(m: Self, idx: int, c: char) -> bool {
        if idx == 0 {
            num_slot_lenient(m.t0, c)
        } else if idx == 1 {
            num_slot_lenient(m.t1, c)
        } else if idx == 2 {
            sep_slot_lenient(m.s0, c)
        } else if idx == 3 {
            num_slot_lenient(m.t2, c)
        } else if idx == 4 {
            num_slot_lenient(m.t3, c)
        } else if idx == 5 {
            sep_slot_lenient(m.s1, c)
        } else if idx == 6 {
            num_slot_lenient(m.t4, c)
        } else if idx == 7 {
            num_slot_lenient(m.t5, c)
        } else if idx == 8 {
            sep_slot_lenient(m.s2, c)
        } else if idx == 9 {
            num_slot_lenient(m.t6, c)
        } else if idx == 10 {
            num_slot_lenient(m.t7, c)
        } else if idx == 11 {
            glyph_slot_lenient(m.t8, c)
        } else {
            false
        }
    }

    /// Strict assignment of one slot: rejects out-of-range indices and
    /// characters outside the slot's alphabet, and then leaves the message
    /// untouched.
    pub fn set_tube(&mut self, tube_idx: usize, disp: char) -> (r: DisplayMessageResult<()>)
        ensures
            match Self::tube_error_for(tube_idx as int, disp) {
                Some(e) => r == Err::<(), DisplayMessageError>(e) && *final(self) == *old(self),
                None => r is Ok && Self::slot_encodes(*final(self), tube_idx as int, disp)
                    && Self::eq_except(*old(self), *final(self), tube_idx as int),
            },
    {
        match tube_idx {
            0 => match NumericTube::from_char(disp) {
                Some(t) => self.t0 = Some(t),
                None => {
                    return Err(DisplayMessageError::UnexpectedCharForTubeType);
                },
            },
            1 => match NumericTube::from_char(disp) {
                Some(t) => self.t1 = Some(t),
                None => {
                    return Err(DisplayMessageError::UnexpectedCharForTubeType);
                },
            },
            2 => match Separator::from_char(disp) {
                Some(t) => self.s0 = Some(t),
                None => {
                    return Err(DisplayMessageError::UnexpectedCharForTubeType);
                },
            },
            3 => match NumericTube::from_char(disp) {
                Some(t) => self.t2 = Some(t),
                None => {
                    return Err(DisplayMessageError::UnexpectedCharForTubeType);
                },
            },
            4 => match NumericTube::from_char(disp) {
                Some(t) => self.t3 = Some(t),
                None => {
                    return Err(DisplayMessageError::UnexpectedCharForTubeType);
                },
            },
            5 => match Separator::from_char(disp) {
                Some(t) => self.s1 = Some(t),
                None => {
                    return Err(DisplayMessageError::UnexpectedCharForTubeType);
                },
            },
            6 => match NumericTube::from_char(disp) {
                Some(t) => self.t4 = Some(t),
                None => {
                    return Err(DisplayMessageError::UnexpectedCharForTubeType);
                },
            },
            7 => match NumericTube::from_char(disp) {
                Some(t) => self.t5 = Some(t),
                None => {
                    return Err(DisplayMessageError::UnexpectedCharForTubeType);
                },
            },
            8 => match Separator::from_char(disp) {
                Some(t) => self.s2 = Some(t),
                None => {
                    return Err(DisplayMessageError::UnexpectedCharForTubeType);
                },
            },
            9 => match NumericTube::from_char(disp) {
                Some(t) => self.t6 = Some(t),
                None => {
                    return Err(DisplayMessageError::UnexpectedCharForTubeType);
                },
            },
            10 => match NumericTube::from_char(disp) {
                Some(t) => self.t7 = Some(t),
                None => {
                    return Err(DisplayMessageError::UnexpectedCharForTubeType);
                },
            },
            11 => match IN19ATube::from_char(disp) {
                Some(t) => self.t8 = Some(t),
                None => {
                    return Err(DisplayMessageError::UnexpectedCharForTubeType);
                },
            },
            _ => {
                return Err(DisplayMessageError::TubeIndexOutOfRange);
            },
        }
        Ok(())
    }

    /// Position `i` of `s` would be rejected by `set_tube` (and is not the
    /// `'*'` skip marker).
    pub open spec fn reject_at(s: Seq<char>, i: int) -> bool {
        s[i] != '*' && !char_ok_for(Self::slot_class(i), s[i])
    }

    /// The first position at or after `i` that `set_from_string` rejects,
    /// or -1 when there is none.
    pub open spec fn first_reject_from(s: Seq<char>, i: int) -> int
        decreases s.len() - i,
    {
        if i < 0 || i >= s.len() {
            -1
        } else if Self::reject_at(s, i) {
            i
        } else {
            Self::first_reject_from(s, i + 1)
        }
    }

    /// One numeric slot after `set_from_string` has processed the first
    /// `upto` characters: within the processed prefix a non-skip character
    /// has been encoded, everything else is untouched.
    pub open spec fn prefix_slot_num(
        a: Option<NumericTube>,
        b: Option<NumericTube>,
        s: Seq<char>,
        upto: int,
        k: int,
    ) -> bool {
        if k < upto && k < s.len() && s[k] != '*' {
            num_slot_lenient(b, s[k])
        } else {
            b == a
        }
    }

    /// One separator slot after `set_from_string` has processed the first
    /// `upto` characters.
    pub open spec fn prefix_slot_sep(
        a: Option<Separator>,
        b: Option<Separator>,
        s: Seq<char>,
        upto: int,
        k: int,
    ) -> bool {
        if k < upto && k < s.len() && s[k] != '*' {
            sep_slot_lenient(b, s[k])
        } else {
            b == a
        }
    }

    /// One multi-glyph slot after `set_from_string` has processed the first
    /// `upto` characters.
    pub open spec fn prefix_slot_glyph(
        a: Option<IN19ATube>,
        b: Option<IN19ATube>,
        s: Seq<char>,
        upto: int,
        k: int,
    ) -> bool {
        if k < upto && k < s.len() && s[k] != '*' {
            glyph_slot_lenient(b, s[k])
        } else {
            b == a
        }
    }

    /// The whole message after `set_from_string` has processed the first
    /// `upto` characters of `s`.
    pub open spec fn updated_to(o: Self, n: Self, s: Seq<char>, upto: int) -> bool {
        &&& Self::prefix_slot_num(o.t0, n.t0, s, upto, 0)
        &&& Self::prefix_slot_num(o.t1, n.t1, s, upto, 1)
        &&& Self::prefix_slot_sep(o.s0, n.s0, s, upto, 2)
        &&& Self::prefix_slot_num(o.t2, n.t2, s, upto, 3)
        &&& Self::prefix_slot_num(o.t3, n.t3, s, upto, 4)
        &&& Self::prefix_slot_sep(o.s1, n.s1, s, upto, 5)
        &&& Self::prefix_slot_num(o.t4, n.t4, s, upto, 6)
        &&& Self::prefix_slot_num(o.t5, n.t5, s, upto, 7)
        &&& Self::prefix_slot_sep(o.s2, n.s2, s, upto, 8)
        &&& Self::prefix_slot_num(o.t6, n.t6, s, upto, 9)
        &&& Self::prefix_slot_num(o.t7, n.t7, s, upto, 10)
        &&& Self::prefix_slot_glyph(o.t8, n.t8, s, upto, 11)
        &&& n.lingers == o.lingers
    }

    /// Strict assignment from a whole string, slot by slot; `'*'` skips a
    /// slot. Stops at the first rejected position and reports its error,
    /// leaving the slots processed up to there assigned.
    pub fn set_from_string(&mut self, time_string: String) -> (r: DisplayMessageResult<()>)
        ensures
            ({
                let s = time_string@;
                let fb = Self::first_reject_from(s, 0);
                if fb == -1 {
                    r is Ok && Self::updated_to(*old(self), *final(self), s, s.len() as int)
                } else {
                    r == Err::<(), DisplayMessageError>(
                        if fb >= 12 {
                            DisplayMessageError::TubeIndexOutOfRange
                        } else {
                            DisplayMessageError::UnexpectedCharForTubeType
                        },
                    ) && Self::updated_to(*old(self), *final(self), s, fb)
                }
            }),
    {
        let s = time_string.as_str();
        let len = s.unicode_len();
        let mut i: usize = 0;
        while i < len
            invariant
                len == s@.len(),
                s@ == time_string@,
                i <= len,
                Self::first_reject_from(s@, 0) == Self::first_reject_from(s@, i as int),
                Self::updated_to(*old(self), *self, s@, i as int),
            decreases len - i,
        {
            let c = s.get_char(i);
            if c != '*' {
                match self.set_tube(i, c) {
                    Ok(_) => {
                        proof {
                            assert(!Self::reject_at(s@, i as int));
                            assert(Self::updated_to(*old(self), *self, s@, i as int + 1));
                        }
                    },
                    Err(e) => {
                        proof {
                            assert(Self::reject_at(s@, i as int));
                            assert(Self::first_reject_from(s@, i as int) == i as int);
                        }
                        return Err(e);
                    },
                }
            } else {
                proof {
                    assert(!Self::reject_at(s@, i as int));
                    assert(Self::updated_to(*old(self), *self, s@, i as int + 1));
                }
            }
            i += 1;
        }
        Ok(())
    }

    pub fn get_off_linger(&self) -> (r: Option<i64>)
        ensures
            r == self.lingers.off,
    {
        self.lingers.off
    }

    pub fn get_on_linger(&self) -> (r: Option<i64>)
        ensures
            r == self.lingers.on,
    {
        self.lingers.on
    }

    /// Overrides whichever linger durations the caller supplies; a `None`
    /// keeps the present value.
    pub fn set_lingers(&mut self, lingers: LingerDurations) -> (r: DisplayMessageResult<()>)
        ensures
            r is Ok,
            final(self).lingers.off == if lingers.off is Some {
                lingers.off
            } else {
                old(self).lingers.off
            },
            final(self).lingers.on == if lingers.on is Some {
                lingers.on
            } else {
                old(self).lingers.on
            },
            final(self).t0 == old(self).t0,
            final(self).t1 == old(self).t1,
            final(self).s0 == old(self).s0,
            final(self).t2 == old(self).t2,
            final(self).t3 == old(self).t3,
            final(self).s1 == old(self).s1,
            final(self).t4 == old(self).t4,
            final(self).t5 == old(self).t5,
            final(self).s2 == old(self).s2,
            final(self).t6 == old(self).t6,
            final(self).t7 == old(self).t7,
            final(self).t8 == old(self).t8,
    {
        if lingers.off.is_some() {
            self.lingers.off = lingers.off;
        }
        if lingers.on.is_some() {
            self.lingers.on = lingers.on;
        }
        Ok(())
    }
}

/// In lenient mode a character outside the numeric alphabet leaves its
/// slot unpopulated, and an unpopulated slot contributes only dark bits
/// to the register.
pub proof fn lemma_lenient_blank_packs_dark(slot: Option<NumericTube>, c: char)
    requires
        num_slot_lenient(slot, c),
        numeric_position_for(c) is None,
    ensures
        slot is None,
        forall|i: int| 0 <= i < num_slot_bits(slot).len() ==> !num_slot_bits(slot)[i],
{
}

/// The bits a numeric slot shows after a lenient encode of `c`.
pub open spec fn num_bits_for(c: char) -> Seq<bool> {
    match numeric_position_for(c) {
        Some(p) => one_hot(NUMERIC_TUBE_BITS as nat, p),
        None => zero_bits(NUMERIC_TUBE_BITS as nat),
    }
}

/// The bits a separator slot shows after a lenient encode of `c`.
pub open spec fn sep_bits_for(c: char) -> Seq<bool> {
    match separator_index_for(c) {
        Some(idx) => idx.pattern(),
        None => zero_bits(SEPARATOR_BITS as nat),
    }
}

/// The bits a multi-glyph slot shows after a lenient encode of `c`.
pub open spec fn glyph_bits_for(c: char) -> Seq<bool> {
    match glyph_position_for(c) {
        Some(p) => one_hot(NUMERIC_TUBE_BITS as nat, p),
        None => zero_bits(NUMERIC_TUBE_BITS as nat),
    }
}

/// The whole 96-bit register the twelve-slot layout shows for a rendered
/// string: each slot's lenient encoding, concatenated in the fixed
/// reversed tube order.
pub open spec fn ncs3148c_base_register(s: Seq<char>) -> Seq<bool> {
    sep_bits_for(s[8]) + glyph_bits_for(s[11]) + num_bits_for(s[10]) + num_bits_for(s[9])
        + sep_bits_for(s[5]) + num_bits_for(s[7]) + num_bits_for(s[6]) + num_bits_for(s[4])
        + sep_bits_for(s[2]) + num_bits_for(s[3]) + num_bits_for(s[1]) + num_bits_for(s[0])
}

/// The whole 96-bit register the eight-slot layout shows for a rendered
/// string.
pub open spec fn ncs3186_base_register(s: Seq<char>) -> Seq<bool> {
    zero_bits(SEPARATOR_BITS as nat) + zero_bits(NUMERIC_TUBE_BITS as nat) + zero_bits(
        NUMERIC_TUBE_BITS as nat,
    ) + zero_bits(NUMERIC_TUBE_BITS as nat) + sep_bits_for(s[5]) + num_bits_for(s[7])
        + num_bits_for(s[6]) + num_bits_for(s[4]) + sep_bits_for(s[2]) + num_bits_for(s[3])
        + num_bits_for(s[1]) + num_bits_for(s[0])
}

/// Building a twelve-slot message from a string and composing it is a
/// pure function of the characters: the register is exactly the slots'
/// lenient encodings in the fixed reversed tube order. Which physical
/// tube lights is pinned by the slot order alone.
pub proof fn lemma_ncs3148c_register_of_string(m: NCS3148CMessage, s: Seq<char>)
    requires
        s.len() >= 12,
        num_slot_lenient(m.t0, s[0]),
        num_slot_lenient(m.t1, s[1]),
        sep_slot_lenient(m.s0, s[2]),
        num_slot_lenient(m.t2, s[3]),
        num_slot_lenient(m.t3, s[4]),
        sep_slot_lenient(m.s1, s[5]),
        num_slot_lenient(m.t4, s[6]),
        num_slot_lenient(m.t5, s[7]),
        sep_slot_lenient(m.s2, s[8]),
        num_slot_lenient(m.t6, s[9]),
        num_slot_lenient(m.t7, s[10]),
        glyph_slot_lenient(m.t8, s[11]),
    ensures
        m.raw_bits() == ncs3148c_base_register(s),
{
}

/// The eight-slot analogue of the register-of-string law.
pub proof fn lemma_ncs3186_register_of_string(m: NCS3186Message, s: Seq<char>)
    requires
        s.len() >= 8,
        num_slot_lenient(m.t0, s[0]),
        num_slot_lenient(m.t1, s[1]),
        sep_slot_lenient(m.s0, s[2]),
        num_slot_lenient(m.t2, s[3]),
        num_slot_lenient(m.t3, s[4]),
        sep_slot_lenient(m.s1, s[5]),
        num_slot_lenient(m.t4, s[6]),
        num_slot_lenient(m.t5, s[7]),
    ensures
        m.raw_bits() == ncs3186_base_register(s),
{
}

/// The composed register's bit width is a constant of the layout: any
/// well-formed twelve-slot message packs to exactly 96 bits, however many
/// of its optional slots are populated.
pub proof fn lemma_ncs3148c_register_width(m: NCS3148CMessage)
    requires
        m.wf(),
    ensures
        m.raw_bits().len() == 96,
{
}

/// The composed register's bit width is a constant of the layout: any
/// well-formed eight-slot message packs to exactly 96 bits, however many
/// of its optional slots are populated.
pub proof fn lemma_ncs3186_register_width(m: NCS3186Message)
    requires
        m.wf(),
    ensures
        m.raw_bits().len() == 96,
{
}

} // verus!
