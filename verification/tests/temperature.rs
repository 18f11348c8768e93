use nixie_clock::animation_utils::TempOverlayAnimation;
use nixie_clock::bits::bool_vec_of;
use nixie_clock::clock_objects::{ClockType, LingerDurations, NCS3148CMessage};
use nixie_clock::clock_time::ClockTime;
use nixie_clock::temperature_sensor::{TemperatureCell, TemperatureSensor};

fn no_lingers() -> LingerDurations {
    LingerDurations { off: None, on: None }
}

// Second 10 of some minute, used to anchor the overlay window at second
// 16 of the same minute.
fn anchor_time() -> ClockTime {
    ClockTime { epoch_micros: 3_610_000_000, hour12: 1 }
}

// Second 17 of the same minute: one second into the overlay's window.
fn visible_time() -> ClockTime {
    ClockTime { epoch_micros: 3_617_000_000, hour12: 1 }
}

#[test]
fn temp_overlay_window_is_anchored_to_second_16() {
    let cell = TemperatureCell::new();
    let overlay = TempOverlayAnimation::new(cell, ClockType::NCS3148C, &anchor_time());
    assert_eq!(overlay.start_time, 3_616_000_000);
    assert_eq!(overlay.duration, 3_000_000);
    assert!(overlay.is_visible(&visible_time()));
    assert!(!overlay.is_visible(&anchor_time()));
}

#[test]
fn temp_overlay_replaces_the_message_and_lingers() {
    let cell = TemperatureCell::new();
    cell.write(Some(2550)); // 25.50 degrees Celsius
    let mut overlay = TempOverlayAnimation::new(cell, ClockType::NCS3148C, &anchor_time());
    let mut msg = NCS3148CMessage::from_string(
        "12:34:56.789 ".to_string(),
        LingerDurations { off: Some(7), on: Some(8) },
    );
    overlay.apply_to_message(&visible_time(), &mut msg).unwrap();
    // 25.50 C converts to 77.90 F: the display reads "77.90'25.50" plus
    // the Celsius glyph on the multi-glyph tube.
    assert_eq!(overlay.temperature_celsius, Some(Some(2550)));
    assert_eq!(msg.lingers.off, Some(0));
    assert_eq!(msg.lingers.on, Some(99));
    let raw = bool_vec_of(&msg.to_raw());
    assert!(raw[86 + 9 - 7], "t0 shows '7'");
    assert!(raw[76 + 9 - 7], "t1 shows '7'");
    assert!(raw[65], "s0 shows the bottom point");
    assert!(!raw[64]);
    assert!(raw[66 + 9 - 9], "t2 shows '9'");
    assert!(raw[54 + 9 - 0], "t3 shows '0'");
    assert!(raw[32], "s1 shows the top indicator");
    assert!(!raw[33]);
    assert!(raw[44 + 9 - 2], "t4 shows '2'");
    assert!(raw[34 + 9 - 5], "t5 shows '5'");
    assert!(raw[1], "s2 shows the bottom point");
    assert!(raw[22 + 9 - 5], "t6 shows '5'");
    assert!(raw[12 + 9 - 0], "t7 shows '0'");
    assert!(raw[2 + 2], "t8 shows the Celsius glyph");
}

#[test]
fn temp_overlay_with_empty_cell_leaves_the_frame_alone() {
    let cell = TemperatureCell::new();
    let mut overlay = TempOverlayAnimation::new(cell, ClockType::NCS3148C, &anchor_time());
    let mut msg = NCS3148CMessage::from_string("12:34:56.789 ".to_string(), no_lingers());
    let before = msg.to_raw_bytes();
    overlay.apply_to_message(&visible_time(), &mut msg).unwrap();
    assert_eq!(overlay.temperature_celsius, Some(None));
    assert_eq!(msg.to_raw_bytes(), before);
    // The cached absence is never retried within this overlay's
    // lifetime, even after the cell gains a value.
    overlay.temperature_lock.write(Some(2000));
    overlay.apply_to_message(&visible_time(), &mut msg).unwrap();
    assert_eq!(overlay.temperature_celsius, Some(None));
    assert_eq!(msg.to_raw_bytes(), before);
}

#[test]
fn temp_overlay_invisible_before_and_after_its_window() {
    let cell = TemperatureCell::new();
    cell.write(Some(2550));
    let mut overlay = TempOverlayAnimation::new(cell, ClockType::NCS3148C, &anchor_time());
    let mut msg = NCS3148CMessage::from_string("12:34:56.789 ".to_string(), no_lingers());
    let before = msg.to_raw_bytes();
    let past = ClockTime { epoch_micros: 3_619_000_001, hour12: 1 };
    overlay.apply_to_message(&anchor_time(), &mut msg).unwrap();
    overlay.apply_to_message(&past, &mut msg).unwrap();
    assert_eq!(msg.to_raw_bytes(), before);
    // No visible frame ever asked for the temperature.
    assert_eq!(overlay.temperature_celsius, None);
}

#[test]
fn negative_temperature_renders_with_a_sign() {
    let cell = TemperatureCell::new();
    cell.write(Some(-2000)); // -20.00 C is -4.00 F
    let mut overlay = TempOverlayAnimation::new(cell, ClockType::NCS3148C, &anchor_time());
    let mut msg = NCS3148CMessage::from_string("12:34:56.789 ".to_string(), no_lingers());
    // The rendering "-4.00'-20.00℃" opens with a minus sign, which the
    // numeric tube at slot 0 rejects in strict mode.
    let res = overlay.apply_to_message(&visible_time(), &mut msg);
    assert_eq!(
        res,
        Err(nixie_clock::DisplayMessageError::UnexpectedCharForTubeType)
    );
}

#[test]
fn sensor_publishes_fresh_readings() {
    let mut sensor = TemperatureSensor::new();
    let t0 = ClockTime { epoch_micros: 1_000_000_000, hour12: 1 };
    assert_eq!(sensor.on_poll_result(&t0, Some(2312)), Some(Some(2312)));
    assert_eq!(sensor.updated_at_micros, Some(1_000_000_000));
}

#[test]
fn sensor_keeps_a_recent_reading_through_failures() {
    let mut sensor = TemperatureSensor::new();
    let t0 = ClockTime { epoch_micros: 1_000_000_000, hour12: 1 };
    sensor.on_poll_result(&t0, Some(2312));
    let soon = ClockTime { epoch_micros: 1_120_000_000, hour12: 1 };
    assert_eq!(sensor.on_poll_result(&soon, None), None);
    assert_eq!(sensor.updated_at_micros, Some(1_000_000_000));
}

#[test]
fn sensor_clears_a_stale_reading() {
    let mut sensor = TemperatureSensor::new();
    let t0 = ClockTime { epoch_micros: 1_000_000_000, hour12: 1 };
    sensor.on_poll_result(&t0, Some(2312));
    let late = ClockTime { epoch_micros: 1_120_000_001, hour12: 1 };
    assert_eq!(sensor.on_poll_result(&late, None), Some(None));
    assert_eq!(sensor.updated_at_micros, None);
}

#[test]
fn sensor_with_no_history_ignores_failures() {
    let mut sensor = TemperatureSensor::new();
    let t0 = ClockTime { epoch_micros: 9_000_000_000, hour12: 1 };
    assert_eq!(sensor.on_poll_result(&t0, None), None);
    assert_eq!(sensor.updated_at_micros, None);
}
