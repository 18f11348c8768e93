use nixie_clock::animation_utils::{
    AntiPoisonAnimation, AntiPoisonAnimationStyle, Overlay, TempOverlayAnimation,
};
use nixie_clock::clock_objects::ClockType;
use nixie_clock::bits::bool_vec_of;
use nixie_clock::clock_driver::NCS3148CDriver;
use nixie_clock::clock_time::ClockTime;
use nixie_clock::temperature_sensor::TemperatureCell;

// 12:34:56.789 on the 12-hour dial, counted in microseconds of the day.
fn sample_time() -> ClockTime {
    ClockTime {
        epoch_micros: ((12 * 3600 + 34 * 60 + 56) * 1_000_000u64) + 789_000,
        hour12: 12,
    }
}

fn fresh_driver(now: &ClockTime) -> NCS3148CDriver {
    NCS3148CDriver::new(TemperatureCell::new(), 200, now)
}

#[test]
fn latch_already_low_skips_the_write_and_mutates_nothing() {
    let now = sample_time();
    let mut driver = fresh_driver(&now);
    driver.show_next_frame(&now).unwrap();
    let reference = driver.write_frame(false, Some(1), Some(2)).unwrap().bytes;

    // Latch-enable already held low by another writer: the frame is
    // dropped, no bytes are handed to the bus.
    assert!(driver.write_frame(true, Some(1), Some(2)).is_none());

    // And the register was left exactly as it was.
    let after = driver.write_frame(false, Some(1), Some(2)).unwrap();
    assert_eq!(after.bytes, reference);
    assert_eq!(after.off_linger, Some(1));
    assert_eq!(after.on_linger, Some(2));
}

#[test]
fn frame_at_subsecond_789_composes_deterministically() {
    // At 789 ms into the second the separator flicker is past its window
    // (deterministically dark) and the duty cycle is in its hold phase,
    // so the whole frame is reproducible.
    let now = sample_time();
    let mut driver = fresh_driver(&now);
    let lingers = driver.show_next_frame(&now).unwrap();
    assert_eq!(lingers.off, Some(200));
    assert_eq!(lingers.on, Some(0));

    let raw = bool_vec_of(&driver.raw_message);
    assert_eq!(raw.len(), 96);
    let lit: Vec<usize> = raw
        .iter()
        .enumerate()
        .filter(|(_, b)| **b)
        .map(|(i, _)| i)
        .collect();
    // "12 34 56 789 ": the digits light their fixed cathodes, every
    // separator is blanked, and '9' lands on the multi-glyph tube, which
    // has no digit cathode and stays dark.
    let mut expected: Vec<usize> = vec![
        86 + 9 - 1, // t0 = '1'
        76 + 9 - 2, // t1 = '2'
        66 + 9 - 3, // t2 = '3'
        54 + 9 - 4, // t3 = '4'
        44 + 9 - 5, // t4 = '5'
        34 + 9 - 6, // t5 = '6'
        22 + 9 - 7, // t6 = '7'
        12 + 9 - 8, // t7 = '8'
    ];
    expected.sort();
    assert_eq!(lit, expected);

    let write = driver.write_frame(false, lingers.off, lingers.on).unwrap();
    // The same register packed most-significant-bit first into the wire
    // bytes: bit i lands in byte i / 8 at weight 1 << (7 - i % 8).
    let mut expected_bytes = vec![0u8; 12];
    for pos in expected {
        expected_bytes[pos / 8] |= 1u8 << (7 - pos % 8);
    }
    assert_eq!(write.bytes, expected_bytes);
    assert_eq!(write.off_linger, Some(200));
}

#[test]
fn minute_rollover_refreshes_the_overlay_set() {
    let now = sample_time();
    let mut driver = fresh_driver(&now);
    assert_eq!(driver.overlays.len(), 0);

    for round in 1u64..=8 {
        let later = ClockTime {
            epoch_micros: now.epoch_micros + round * 60_000_000,
            hour12: 12,
        };
        driver.show_next_frame(&later).unwrap();
        // The scheduler never holds more anti-poison overlays than there
        // are eligible tube positions; here the fresh batch is capped one
        // below that.
        let anti = driver
            .overlays
            .iter()
            .filter(|o| matches!(o, Overlay::AntiPoison(_)))
            .count();
        assert!(anti <= 5, "round {}: {} anti-poison overlays", round, anti);
        let temps = driver
            .overlays
            .iter()
            .filter(|o| matches!(o, Overlay::TempOverlay(_)))
            .count();
        assert_eq!(temps, 1, "round {}", round);
        // Every previously expired overlay is gone: all survivors are
        // anchored inside the current minute.
        let minute_start = (later.epoch_micros / 60_000_000) * 60_000_000;
        for o in &driver.overlays {
            match o {
                Overlay::AntiPoison(a) => {
                    assert!(a.start_time >= minute_start + 5_000_000);
                    assert!(a.start_time + a.duration < minute_start + 60_000_000);
                },
                Overlay::TempOverlay(t) => {
                    assert!(t.start_time >= minute_start + 5_000_000);
                    assert!(t.start_time + t.duration < minute_start + 60_000_000);
                },
            }
        }
    }
}

#[test]
fn rollover_across_the_hour_boundary_still_refreshes() {
    // 12:59:30 to 01:00:30: the minute of the hour wraps to a smaller
    // value, but the minute has still advanced, so the scheduler runs.
    let before = ClockTime {
        epoch_micros: (12 * 3600 + 59 * 60 + 30) * 1_000_000u64,
        hour12: 12,
    };
    let mut driver = fresh_driver(&before);
    let after = ClockTime {
        epoch_micros: (13 * 3600 + 30) * 1_000_000u64,
        hour12: 1,
    };
    driver.show_next_frame(&after).unwrap();
    assert!(!driver.overlays.is_empty(), "the refresh added this minute's overlays");
}

#[test]
fn overlays_apply_in_stored_order_with_temperature_last() {
    // An anti-poison overlay and the temperature overlay contest the
    // first tube: the temperature overlay is stored last, so it is
    // applied last and wins, frame after frame.
    let minute_start: u64 = 7 * 60_000_000;
    let created = ClockTime { epoch_micros: minute_start + 10_000_000, hour12: 1 };
    let cell = TemperatureCell::new();
    cell.write(Some(2550)); // renders "77.90'25.50" plus the Celsius glyph
    let mut driver = NCS3148CDriver::new(cell.clone_handle(), 200, &created);
    // Anchored at its midpoint exactly on the frame instant, outside the
    // fade windows, a sequential digit cycle shows '5' for every draw.
    let anti = AntiPoisonAnimation::new(
        0,
        AntiPoisonAnimationStyle::Sequential,
        minute_start + 16_500_000,
        2_000_000,
        vec!['0', '1', '2', '3', '4', '5', '6', '7', '8', '9'],
        30,
    );
    let temp = TempOverlayAnimation::new(cell, ClockType::NCS3148C, &created);
    driver.overlays.push(Overlay::AntiPoison(anti));
    driver.overlays.push(Overlay::TempOverlay(temp));

    for _ in 0..4 {
        let frame_time = ClockTime { epoch_micros: minute_start + 17_500_000, hour12: 1 };
        let lingers = driver.show_next_frame(&frame_time).unwrap();
        // The temperature overlay's linger override took effect.
        assert_eq!((lingers.off, lingers.on), (Some(0), Some(99)));
        let raw = bool_vec_of(&driver.raw_message);
        assert!(raw[86 + 9 - 7], "t0 shows the temperature's '7'");
        assert!(!raw[86 + 9 - 5], "the anti-poison '5' was overridden");
        // The stored order survives the frame.
        assert!(matches!(driver.overlays[0], Overlay::AntiPoison(_)));
        assert!(matches!(driver.overlays[1], Overlay::TempOverlay(_)));
    }
}

#[test]
fn backward_clock_step_reanchors_the_overlay_set() {
    // A clock step backwards (a DST fall-back) must not freeze the
    // display: the minute changed, so the scheduler re-anchors to the
    // new minute and frames keep composing.
    let now = sample_time();
    let mut driver = fresh_driver(&now);
    driver.show_next_frame(&now).unwrap();
    let earlier = ClockTime {
        epoch_micros: now.epoch_micros - 2 * 60_000_000,
        hour12: 11,
    };
    driver.show_next_frame(&earlier).unwrap();
    assert!(!driver.overlays.is_empty());
    let minute_start = (earlier.epoch_micros / 60_000_000) * 60_000_000;
    for o in &driver.overlays {
        match o {
            Overlay::AntiPoison(a) => {
                assert!(a.start_time >= minute_start + 5_000_000);
                assert!(a.start_time + a.duration < minute_start + 60_000_000);
            },
            Overlay::TempOverlay(t) => {
                assert!(t.start_time >= minute_start + 5_000_000);
                assert!(t.start_time + t.duration < minute_start + 60_000_000);
            },
        }
    }
    let raw = bool_vec_of(&driver.raw_message);
    assert_eq!(raw.len(), 96);
}

#[test]
fn frames_within_a_minute_keep_the_overlay_set() {
    let now = sample_time();
    let mut driver = fresh_driver(&now);
    let rollover = ClockTime { epoch_micros: now.epoch_micros + 60_000_000, hour12: 12 };
    driver.show_next_frame(&rollover).unwrap();
    let count = driver.overlays.len();
    let next_frame = ClockTime { epoch_micros: rollover.epoch_micros + 200, hour12: 12 };
    driver.show_next_frame(&next_frame).unwrap();
    assert_eq!(driver.overlays.len(), count);
}
