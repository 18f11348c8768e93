//! Per-frame orchestration for the twelve-slot clock: render the base
//! time, gate the separators, compute the duty cycle, apply the minute's
//! overlays, compose the wire register and decide the latch write.
//!
//! The driver holds no peripheral handles: it computes each frame as
//! plain data, and [`NCS3148CDriver::write_frame`] turns the latch-line
//! state the caller observed into either a write order or a defensive
//! skip. The caller performs the physical latch/shift/linger sequence.

use vstd::prelude::*;

use crate::animation_utils::{
    blanked_chars, matrix_overlay_ok, pwm_off_micros, pwm_on_micros, separator_visible_spec,
    time_string_spec, AntiPoisonAnimation, DisplayMessageStringUtils, Overlay, PwmAnimation,
    TempOverlayAnimation, TimeSeparators, MAX_FRAME_INTERVAL_MICROS,
};
use crate::bits::{bit_seq, bv_from_elem, bv_to_bytes, packed_bytes, zero_bits};
use crate::clock_objects::{
    lemma_ncs3148c_register_of_string, ncs3148c_base_register, ClockType, LingerDurations,
    NCS3148CMessage,
};
use crate::clock_time::ClockTime;
use crate::errors::{DisplayMessageError, DisplayMessageResult};
use crate::temperature_sensor::TemperatureCell;

verus! {

/// How many overlays of a sequence are anti-poison overlays.
pub open spec fn count_anti_poison(s: Seq<Overlay>) -> int
    decreases s.len(),
{
    if s.len() == 0 {
        0
    } else {
        count_anti_poison(s.drop_last()) + if s.last().is_anti_poison() {
            1int
        } else {
            0int
        }
    }
}

/// Appending one overlay raises the anti-poison count by one exactly when
/// the overlay is one.
proof fn lemma_count_anti_poison_push(s: Seq<Overlay>, o: Overlay)
    ensures
        count_anti_poison(s.push(o)) == count_anti_poison(s) + if o.is_anti_poison() {
            1int
        } else {
            0int
        },
{
    assert(s.push(o).drop_last() =~= s);
    assert(s.push(o).last() == o);
}

/// Removing the first overlay lowers the anti-poison count by one
/// exactly when that overlay is one.
proof fn lemma_count_anti_poison_drop_first(s: Seq<Overlay>)
    requires
        s.len() > 0,
    ensures
        count_anti_poison(s) == (if s[0].is_anti_poison() {
            1int
        } else {
            0int
        }) + count_anti_poison(s.drop_first()),
    decreases s.len(),
{
    if s.len() == 1 {
        assert(s.drop_first() =~= Seq::<Overlay>::empty());
        assert(s.drop_last() =~= Seq::<Overlay>::empty());
        assert(s.last() == s[0]);
    } else {
        lemma_count_anti_poison_drop_first(s.drop_last());
        assert(s.drop_last()[0] == s[0]);
        assert(s.drop_first().drop_last() =~= s.drop_last().drop_first());
        assert(s.drop_first().last() == s.last());
    }
}

/// One frame's physical write order: the register bytes to shift out and
/// the two linger durations around the latch release.
pub struct FrameWrite {
    pub bytes: Vec<u8>,
    pub off_linger: Option<i64>,
    pub on_linger: Option<i64>,
}

/// The per-frame driver of the twelve-slot clock.
pub struct NCS3148CDriver {
    pub frame_interval_us: i64,
    pub raw_message: bit_vec::BitVec<u8>,
    pub last_frame_time: ClockTime,
    pub temperature_lock: TemperatureCell,
    pub overlays: Vec<Overlay>,
}

impl NCS3148CDriver {
    /// Number of numeric tube positions eligible for anti-poison
    /// overlays.
    pub open spec fn eligible_position_count() -> int {
        6
    }

    /// Every held overlay is anchored within the given minute: it
    /// starts at or after the minute begins and expires before the next
    /// minute does. So a minute rollover expires them all, and a clock
    /// step backwards leaves them all anchored past the coming minute.
    pub open spec fn overlays_anchored(&self, minute_index: int) -> bool {
        forall|k: int|
            0 <= k < self.overlays@.len() ==> (#[trigger] self.overlays@[k]).anchored_to_minute(
                minute_index,
            )
    }

    pub open spec fn overlays_wf(&self) -> bool {
        forall|k: int| 0 <= k < self.overlays@.len() ==> (#[trigger] self.overlays@[k]).wf()
    }

    /// The driver's invariant. In particular the scheduler never holds
    /// more anti-poison overlays than there are eligible tube positions.
    pub open spec fn wf(&self) -> bool {
        &&& 0 <= self.frame_interval_us <= MAX_FRAME_INTERVAL_MICROS
        &&& bit_seq(self.raw_message).len() == 96
        &&& self.last_frame_time.wf()
        &&& self.overlays_wf()
        &&& self.overlays_anchored(self.last_frame_time.minute_index_spec())
        &&& count_anti_poison(self.overlays@) <= Self::eligible_position_count()
    }

    /// Builds a driver with a dark register and no overlays.
    pub fn new(temperature_lk: TemperatureCell, frame_interval_us: i64, now: &ClockTime) -> (r:
        NCS3148CDriver)
        requires
            0 <= frame_interval_us <= MAX_FRAME_INTERVAL_MICROS,
            now.wf(),
        ensures
            r.wf(),
            r.frame_interval_us == frame_interval_us,
            r.last_frame_time == *now,
            r.overlays@.len() == 0,
            bit_seq(r.raw_message) == zero_bits(96),
    {
        let raw = bv_from_elem(96, false);
        proof {
            assert(bit_seq(raw) =~= zero_bits(96));
        }
        NCS3148CDriver {
            frame_interval_us,
            raw_message: raw,
            last_frame_time: *now,
            temperature_lock: temperature_lk,
            overlays: Vec::new(),
        }
    }

    /// The once-per-minute scheduler refresh: drops every overlay that
    /// has expired or whose anchor lies outside the current minute,
    /// generates the minute's randomized anti-poison batch and appends
    /// one fresh temperature overlay. Called whenever the observed
    /// minute differs from the previous frame's — forward at a rollover,
    /// where every held overlay has expired, or backward after a clock
    /// step, where every held overlay is anchored past the coming minute
    /// — so the active set afterwards is exactly the fresh batch plus
    /// the temperature overlay.
    pub fn setup_overlays_for_minute(&mut self, now: &ClockTime)
        requires
            old(self).wf(),
            now.wf(),
            now.minute_index_spec() != old(self).last_frame_time.minute_index_spec(),
        ensures
            final(self).frame_interval_us == old(self).frame_interval_us,
            final(self).raw_message == old(self).raw_message,
            final(self).last_frame_time == old(self).last_frame_time,
            final(self).temperature_lock == old(self).temperature_lock,
            final(self).overlays_wf(),
            final(self).overlays_anchored(now.minute_index_spec()),
            count_anti_poison(final(self).overlays@) < Self::eligible_position_count(),
            final(self).overlays@.len() >= 1,
            forall|k: int|
                0 <= k < final(self).overlays@.len() - 1 ==> matrix_overlay_ok(
                    #[trigger] final(self).overlays@[k],
                    now.minute_start_spec(),
                ),
            final(self).overlays@.last() matches Overlay::TempOverlay(t) && t.wf()
                && t.start_time == now.minute_start_spec() + 16 * 1_000_000
                + now.subsec_micros_spec() && t.duration == 3_000_000 && t.temperature_celsius
                is None,
    {
        // Clear out every overlay the current minute cannot show: at a
        // rollover all of them have expired; after a backward clock step
        // all of them are anchored past the coming minute boundary.
        let mut kept: Vec<Overlay> = Vec::new();
        proof {
            assert(now.epoch_micros >= now.minute_index_spec() * 60_000_000) by {
                vstd::arithmetic::div_mod::lemma_fundamental_div_mod(
                    now.epoch_micros as int,
                    60_000_000,
                );
            }
            assert(now.minute_index_spec() <= 4_000_000_000_000_000int / 60_000_000) by {
                vstd::arithmetic::div_mod::lemma_div_is_ordered(
                    now.epoch_micros as int,
                    4_000_000_000_000_000,
                    60_000_000,
                );
            }
        }
        let next_minute_boundary: u64 = (now.minute_index() + 1) * 60_000_000;
        while self.overlays.len() > 0
            invariant
                now.wf(),
                now.epoch_micros >= now.minute_index_spec() * 60_000_000,
                next_minute_boundary == (now.minute_index_spec() + 1) * 60_000_000,
                now.minute_index_spec() != old(self).last_frame_time.minute_index_spec(),
                self.frame_interval_us == old(self).frame_interval_us,
                self.raw_message == old(self).raw_message,
                self.last_frame_time == old(self).last_frame_time,
                self.temperature_lock == old(self).temperature_lock,
                self.overlays_wf(),
                self.overlays_anchored(self.last_frame_time.minute_index_spec()),
                kept@.len() == 0,
            decreases self.overlays@.len(),
        {
            let ghost prev = self.overlays@;
            let o = self.overlays.pop().unwrap();
            proof {
                assert(o == prev.last());
                assert(self.overlays@ =~= prev.drop_last());
                let last_minute = self.last_frame_time.minute_index_spec();
                assert(o.anchored_to_minute(last_minute));
                if now.minute_index_spec() > last_minute {
                    assert((last_minute + 1) * 60_000_000 <= now.minute_index_spec()
                        * 60_000_000);
                    assert(o.has_ended_at(now.epoch_micros as int));
                } else {
                    assert((now.minute_index_spec() + 1) * 60_000_000 <= last_minute
                        * 60_000_000);
                    assert(o.start_spec() >= next_minute_boundary);
                }
            }
            let ended = o.has_ended(now);
            let stale_anchor = o.start_micros() >= next_minute_boundary;
            if !ended && !stale_anchor {
                kept.push(o);
            }
        }
        self.overlays = kept;
        // The minute's randomized batch of tube-cycling overlays.
        let mut batch = AntiPoisonAnimation::matrix_style_set(now);
        proof {
            assert(count_anti_poison(self.overlays@) == 0);
        }
        while batch.len() > 0
            invariant
                now.wf(),
                self.frame_interval_us == old(self).frame_interval_us,
                self.raw_message == old(self).raw_message,
                self.last_frame_time == old(self).last_frame_time,
                self.temperature_lock == old(self).temperature_lock,
                count_anti_poison(self.overlays@) + batch@.len() < 6,
                forall|k: int|
                    0 <= k < batch@.len() ==> matrix_overlay_ok(
                        #[trigger] batch@[k],
                        now.minute_start_spec(),
                    ),
                forall|k: int|
                    0 <= k < self.overlays@.len() ==> matrix_overlay_ok(
                        #[trigger] self.overlays@[k],
                        now.minute_start_spec(),
                    ),
            decreases batch@.len(),
        {
            let ghost prev_batch = batch@;
            let ghost prev_overlays = self.overlays@;
            let o = batch.pop().unwrap();
            proof {
                assert(o == prev_batch.last());
                assert(batch@ =~= prev_batch.drop_last());
                lemma_count_anti_poison_push(prev_overlays, o);
                assert(count_anti_poison(prev_batch) == count_anti_poison(batch@) + 1) by {
                    assert(prev_batch.drop_last() =~= batch@);
                    assert(prev_batch.last().is_anti_poison());
                }
            }
            self.overlays.push(o);
        }
        // One temperature overlay per minute, carrying a fresh handle to
        // the shared reading.
        let temperature_overlay = Overlay::TempOverlay(
            TempOverlayAnimation::new(
                self.temperature_lock.clone_handle(),
                ClockType::NCS3148C,
                now,
            ),
        );
        proof {
            lemma_count_anti_poison_push(self.overlays@, temperature_overlay);
        }
        self.overlays.push(temperature_overlay);
        proof {
            assert forall|k: int| 0 <= k < self.overlays@.len() implies (
            #[trigger] self.overlays@[k]).end_spec() < (now.minute_index_spec() + 1)
                * 60_000_000 by {
                if k < self.overlays@.len() - 1 {
                    assert(matrix_overlay_ok(self.overlays@[k], now.minute_start_spec()));
                }
            }
        }
    }

    /// Renders one frame: builds the base time string, gates the
    /// separators by the flicker animation, computes the duty cycle,
    /// applies every overlay in stored order, composes the register into
    /// `raw_message` and returns the frame's linger durations. A strict
    /// rejection raised by an overlay is reported after the frame is
    /// composed; the frame itself still shows what the remaining
    /// overlays produced.
    pub fn show_next_frame(&mut self, now: &ClockTime) -> (r: DisplayMessageResult<
        LingerDurations,
    >)
        requires
            old(self).wf(),
            now.wf(),
        ensures
            final(self).wf(),
            final(self).frame_interval_us == old(self).frame_interval_us,
            final(self).last_frame_time == *now,
            bit_seq(final(self).raw_message).len() == 96,
            r matches Ok(l) ==> l.off is Some && l.on is Some,
            now.minute_index_spec() != old(self).last_frame_time.minute_index_spec()
                ==> count_anti_poison(final(self).overlays@) < Self::eligible_position_count(),
            now.minute_index_spec() == old(self).last_frame_time.minute_index_spec() ==> (
            count_anti_poison(final(self).overlays@) == count_anti_poison(old(self).overlays@)
                && final(self).overlays@.len() == old(self).overlays@.len()),
            ({
                // Within the minute, with no overlay visible, the frame
                // is pinned up to the flicker draw.
                let calm = now.minute_index_spec() == old(
                    self,
                ).last_frame_time.minute_index_spec() && (forall|k: int|
                    0 <= k < old(self).overlays@.len() ==> !(#[trigger] old(
                        self,
                    ).overlays@[k]).is_visible_at(now.epoch_micros as int));
                let lingers = LingerDurations {
                    off: Some(
                        pwm_off_micros(
                            now.subsec_micros_spec(),
                            old(self).frame_interval_us as int,
                        ) as i64,
                    ),
                    on: Some(
                        pwm_on_micros(
                            now.subsec_micros_spec(),
                            old(self).frame_interval_us as int,
                        ) as i64,
                    ),
                };
                calm ==> exists|draw: int|
                    0 <= draw < 255 && ({
                        let shown = if #[trigger] separator_visible_spec(
                            now.subsec_micros_spec(),
                            draw,
                        ) {
                            time_string_spec(*now, ClockType::NCS3148C)
                        } else {
                            blanked_chars(time_string_spec(*now, ClockType::NCS3148C))
                        };
                        bit_seq(final(self).raw_message) == ncs3148c_base_register(shown) && r
                            == Ok::<LingerDurations, DisplayMessageError>(lingers)
                    })
            }),
            ({
                // Past the flicker window the draw no longer matters:
                // the register is pinned outright.
                let quiet = now.subsec_micros_spec() >= 750_000 && now.minute_index_spec() == old(
                    self,
                ).last_frame_time.minute_index_spec() && (forall|k: int|
                    0 <= k < old(self).overlays@.len() ==> !(#[trigger] old(
                        self,
                    ).overlays@[k]).is_visible_at(now.epoch_micros as int));
                quiet ==> bit_seq(final(self).raw_message) == ncs3148c_base_register(
                    blanked_chars(time_string_spec(*now, ClockType::NCS3148C)),
                )
            }),
    {
        let seconds_pulse = PwmAnimation { frame_interval_us: self.frame_interval_us };
        let micros = now.subsec_micros();
        if now.minute_index() != self.last_frame_time.minute_index() {
            self.setup_overlays_for_minute(now);
        }
        let ghost overlays_after_refresh = self.overlays@;
        let ghost all_quiet = forall|k: int|
            0 <= k < overlays_after_refresh.len() ==> !(
            #[trigger] overlays_after_refresh[k]).is_visible_at(now.epoch_micros as int);
        let mut msg_string = DisplayMessageStringUtils::for_local(now, ClockType::NCS3148C);
        let sep_visible = TimeSeparators::time_separators_animation(micros);
        if !sep_visible {
            msg_string = DisplayMessageStringUtils::blank_separators(msg_string.as_str());
        }
        proof {
            assert(msg_string@ == if sep_visible {
                time_string_spec(*now, ClockType::NCS3148C)
            } else {
                blanked_chars(time_string_spec(*now, ClockType::NCS3148C))
            });
        }
        let ghost base_chars = msg_string@;
        let frame_lingers = seconds_pulse.pwm_seconds_animation(micros);
        let mut cur_message = NCS3148CMessage::from_string(msg_string, frame_lingers);
        let ghost msg0 = cur_message;

        let mut processed: Vec<Overlay> = Vec::new();
        let mut first_err: Option<DisplayMessageError> = None;
        proof {
            assert(self.overlays@ =~= overlays_after_refresh.subrange(
                0,
                overlays_after_refresh.len() as int,
            ));
        }
        while self.overlays.len() > 0
            invariant
                now.wf(),
                self.frame_interval_us == old(self).frame_interval_us,
                0 <= self.frame_interval_us <= MAX_FRAME_INTERVAL_MICROS,
                cur_message.wf(),
                cur_message.lingers.off is Some,
                cur_message.lingers.on is Some,
                forall|k: int| 0 <= k < self.overlays@.len() ==> (#[trigger] self.overlays@[k]).wf(),
                forall|k: int|
                    0 <= k < self.overlays@.len() ==> (
                    #[trigger] self.overlays@[k]).anchored_to_minute(now.minute_index_spec()),
                forall|k: int| 0 <= k < processed@.len() ==> (#[trigger] processed@[k]).wf(),
                forall|k: int|
                    0 <= k < processed@.len() ==> (#[trigger] processed@[k]).anchored_to_minute(
                        now.minute_index_spec(),
                    ),
                count_anti_poison(processed@) + count_anti_poison(self.overlays@)
                    == count_anti_poison(overlays_after_refresh),
                count_anti_poison(overlays_after_refresh) <= Self::eligible_position_count(),
                processed@.len() + self.overlays@.len() == overlays_after_refresh.len(),
                self.overlays@ == overlays_after_refresh.subrange(
                    processed@.len() as int,
                    overlays_after_refresh.len() as int,
                ),
                all_quiet == (forall|k: int|
                    0 <= k < overlays_after_refresh.len() ==> !(
                    #[trigger] overlays_after_refresh[k]).is_visible_at(
                        now.epoch_micros as int,
                    )),
                all_quiet ==> (cur_message == msg0 && first_err is None),
            decreases self.overlays@.len(),
        {
            let ghost prev = self.overlays@;
            let ghost prev_processed = processed@;
            let mut o = self.overlays.remove(0);
            proof {
                assert(o == prev[0]);
                assert(self.overlays@ =~= prev.drop_first());
                assert forall|j: int| 0 <= j < prev.len() implies prev[j]
                    == overlays_after_refresh[prev_processed.len() + j] by {
                    assert(overlays_after_refresh.subrange(
                        prev_processed.len() as int,
                        overlays_after_refresh.len() as int,
                    )[j] == overlays_after_refresh[prev_processed.len() + j]);
                }
                assert(self.overlays@ =~= overlays_after_refresh.subrange(
                    prev_processed.len() as int + 1,
                    overlays_after_refresh.len() as int,
                ));
                if all_quiet {
                    assert(o == overlays_after_refresh[prev_processed.len() as int]);
                    assert(!o.is_visible_at(now.epoch_micros as int));
                }
            }
            let res = match &mut o {
                Overlay::TempOverlay(t) => t.apply_to_message(now, &mut cur_message),
                Overlay::AntiPoison(a) => a.apply_to_message(now, &mut cur_message),
            };
            proof {
                lemma_count_anti_poison_push(prev_processed, o);
                lemma_count_anti_poison_drop_first(prev);
            }
            processed.push(o);
            match res {
                Ok(_) => (),
                Err(e) => if first_err.is_none() {
                    first_err = Some(e);
                },
            }
        }
        self.overlays = processed;

        let raw = cur_message.to_raw();
        proof {
            if now.minute_index_spec() == old(self).last_frame_time.minute_index_spec() && (
            forall|k: int|
                0 <= k < old(self).overlays@.len() ==> !(#[trigger] old(
                    self,
                ).overlays@[k]).is_visible_at(now.epoch_micros as int)) {
                assert(all_quiet);
                assert(cur_message == msg0);
                lemma_ncs3148c_register_of_string(msg0, base_chars);
                let draw = choose|draw: int|
                    0 <= draw < 255 && sep_visible == separator_visible_spec(
                        micros as int,
                        draw,
                    );
                assert(0 <= draw < 255 && bit_seq(raw) == ncs3148c_base_register(
                    if separator_visible_spec(now.subsec_micros_spec(), draw) {
                        time_string_spec(*now, ClockType::NCS3148C)
                    } else {
                        blanked_chars(time_string_spec(*now, ClockType::NCS3148C))
                    },
                ));
            }
        }
        self.raw_message = raw;
        let lingers = cur_message.lingers;
        self.last_frame_time = *now;
        match first_err {
            Some(e) => Err(e),
            None => Ok(lingers),
        }
    }

    /// Decides the latch write for the composed frame. If the caller
    /// found the latch-enable line already held low, another writer is
    /// mid-frame: the frame is dropped — no bytes are handed out and
    /// nothing in the driver changes — and the loop goes on. Otherwise
    /// the caller receives the register bytes to shift out and the two
    /// linger durations to sleep around the latch release.
    pub fn write_frame(
        &mut self,
        latch_is_low: bool,
        off_linger: Option<i64>,
        on_linger: Option<i64>,
    ) -> (r: Option<FrameWrite>)
        ensures
            *final(self) == *old(self),
            latch_is_low ==> r is None,
            !latch_is_low ==> (r matches Some(w) && w.bytes@ == packed_bytes(
                bit_seq(old(self).raw_message),
            ) && w.off_linger == off_linger && w.on_linger == on_linger),
    {
        if latch_is_low {
            // Latch already held low by another writer: abort this write.
            None
        } else {
            Some(
                FrameWrite {
                    bytes: bv_to_bytes(&self.raw_message),
                    off_linger,
                    on_linger,
                },
            )
        }
    }
}

} // verus!
