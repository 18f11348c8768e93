use nixie_clock::animation_utils::{
    AntiPoisonAnimation, AntiPoisonAnimationStyle, DisplayMessageStringUtils, Overlay,
    PwmAnimation, PwmFadeIn, PwmFadeOut, TimeSeparators,
};
use nixie_clock::bits::bool_vec_of;
use nixie_clock::clock_objects::{ClockType, LingerDurations, NCS3148CMessage};
use nixie_clock::clock_time::ClockTime;

fn no_lingers() -> LingerDurations {
    LingerDurations { off: None, on: None }
}

// 12:34:56.789 on the 12-hour dial, counted in microseconds of the day.
fn sample_time() -> ClockTime {
    ClockTime {
        epoch_micros: ((12 * 3600 + 34 * 60 + 56) * 1_000_000u64) + 789_000,
        hour12: 12,
    }
}

#[test]
fn separator_flicker_is_dark_past_the_window() {
    for micros in [750_000u32, 750_001, 900_000, 999_999] {
        for _ in 0..32 {
            assert!(!TimeSeparators::time_separators_animation(micros));
        }
    }
}

#[test]
fn separator_flicker_is_certain_at_second_start() {
    // At the very start of the second the bounce level is its full
    // amplitude of 255, above every possible draw.
    for _ in 0..32 {
        assert!(TimeSeparators::time_separators_animation(0));
    }
}

#[test]
fn pwm_lingers_sum_to_the_frame_interval() {
    let pwm = PwmAnimation { frame_interval_us: 200 };
    let mut micros = 0u32;
    while micros < 1_000_000 {
        let l = pwm.pwm_seconds_animation(micros);
        let off = l.off.unwrap();
        let on = l.on.unwrap();
        assert!(off >= 0 && on >= 0);
        let total = off + on;
        assert!(
            total == 200 || total == 199,
            "micros {}: off {} on {}",
            micros,
            off,
            on
        );
        micros += 997;
    }
}

#[test]
fn pwm_exact_values_per_phase() {
    let pwm = PwmAnimation { frame_interval_us: 200 };
    // Start of the second: fully lit.
    let l = pwm.pwm_seconds_animation(0);
    assert_eq!((l.off, l.on), (Some(0), Some(200)));
    // Middle of the ramp-down: the quarter-cosine ratio 4(d²-t²)/(4d²+t²)
    // at t = d/2 is 12/17.
    let l = pwm.pwm_seconds_animation(375_000);
    assert_eq!((l.off, l.on), (Some(58), Some(141)));
    // Hold phase.
    let l = pwm.pwm_seconds_animation(800_000);
    assert_eq!((l.off, l.on), (Some(200), Some(0)));
    // Quintic ramp back up: (50000/100000)^5 = 1/32 of the interval.
    let l = pwm.pwm_seconds_animation(950_000);
    assert_eq!((l.off, l.on), (Some(193), Some(6)));
}

#[test]
fn pwm_fade_structs_pin_the_duty_cycle() {
    let out = PwmFadeOut { start_time: 0, duration: 1, frame_interval_us: 200 };
    let l = out.get_linger_durations();
    assert_eq!((l.off, l.on), (Some(200), Some(0)));
    let fade_in = PwmFadeIn { start_time: 0, duration: 1, frame_interval_us: 200 };
    let l = fade_in.get_linger_durations();
    assert_eq!((l.off, l.on), (Some(0), Some(200)));
}

fn digit_cycle() -> Vec<char> {
    vec!['0', '1', '2', '3', '4', '5', '6', '7', '8', '9']
}

#[test]
fn anti_poison_is_invisible_outside_its_lifetime() {
    let overlay = AntiPoisonAnimation::new(
        0,
        AntiPoisonAnimationStyle::Sequential,
        1_000_000,
        2_000_000,
        digit_cycle(),
        30,
    );
    let just_before = ClockTime { epoch_micros: 1_000_000, hour12: 1 };
    let just_after = ClockTime { epoch_micros: 3_000_000, hour12: 1 };
    let past = ClockTime { epoch_micros: 3_000_001, hour12: 1 };
    assert!(!overlay.is_visible(&just_before));
    assert!(!overlay.is_visible(&just_after));
    // Expired exactly at the boundary instant, and past it.
    assert!(overlay.has_ended(&just_after));
    assert!(overlay.has_ended(&past));

    let mut msg = NCS3148CMessage::from_string("12:34:56.789 ".to_string(), no_lingers());
    let before_bits = msg.to_raw_bytes();
    overlay.apply_to_message(&just_before, &mut msg).unwrap();
    overlay.apply_to_message(&past, &mut msg).unwrap();
    assert_eq!(msg.to_raw_bytes(), before_bits);
}

#[test]
fn anti_poison_midpoint_always_shows_a_cycle_digit() {
    // Sequential keeps the cycle in digit order, so the midpoint glyph is
    // pinned: position 70 * t / d = 35, and 35 mod 10 = 5.
    let overlay = AntiPoisonAnimation::new(
        0,
        AntiPoisonAnimationStyle::Sequential,
        1_000_000,
        2_000_000,
        digit_cycle(),
        30,
    );
    let midpoint = ClockTime { epoch_micros: 2_000_000, hour12: 1 };
    for _ in 0..32 {
        let v = overlay.get_current_value(&midpoint);
        assert_eq!(v, Some('5'));
    }
    let mut msg = NCS3148CMessage::from_string("12:34:56.789 ".to_string(), no_lingers());
    overlay.apply_to_message(&midpoint, &mut msg).unwrap();
    // Slot 0 now shows '5': bit 9 - 5 = 4 of the t0 group at offset 86.
    let raw = bool_vec_of(&msg.to_raw());
    assert!(raw[86 + 4]);
    assert!(!raw[86 + 8], "the old '1' cathode is dark");
}

#[test]
fn random_style_shuffle_keeps_the_cycle_contents() {
    let overlay = AntiPoisonAnimation::new(
        3,
        AntiPoisonAnimationStyle::Random,
        1_000_000,
        2_000_000,
        digit_cycle(),
        30,
    );
    let mut cycle = overlay.cycle.clone();
    cycle.sort();
    assert_eq!(cycle, digit_cycle());
}

#[test]
fn matrix_style_set_respects_the_eligible_positions() {
    let now = sample_time();
    let minute_start = (now.epoch_micros / 60_000_000) * 60_000_000;
    for _ in 0..64 {
        let batch = AntiPoisonAnimation::matrix_style_set(&now);
        assert!(batch.len() <= 5);
        for o in &batch {
            match o {
                Overlay::AntiPoison(a) => {
                    assert!(matches!(a.style, AntiPoisonAnimationStyle::Random));
                    assert_eq!(a.duration, 2_000_000);
                    assert!([0usize, 1, 3, 4, 6, 7].contains(&a.tube_idx));
                    assert!(a.start_time >= minute_start + 5_000_000);
                    assert!(a.start_time + a.duration < minute_start + 60_000_000);
                },
                Overlay::TempOverlay(_) => panic!("the batch holds only anti-poison overlays"),
            }
        }
    }
}

#[test]
fn for_local_renders_both_layouts() {
    let t = sample_time();
    assert_eq!(
        DisplayMessageStringUtils::for_local(&t, ClockType::NCS3148C),
        "12:34:56.789 "
    );
    assert_eq!(
        DisplayMessageStringUtils::for_local(&t, ClockType::NCS3186),
        "12:34:56"
    );
    let one_past_midnight = ClockTime { epoch_micros: 61_000_000, hour12: 12 };
    assert_eq!(
        DisplayMessageStringUtils::for_local(&one_past_midnight, ClockType::NCS3186),
        "12:01:01"
    );
}

#[test]
fn blank_separators_blanks_colons_and_periods() {
    assert_eq!(
        DisplayMessageStringUtils::blank_separators("12:34:56.789 "),
        "12 34 56 789 "
    );
    assert_eq!(DisplayMessageStringUtils::blank_separators("''"), "''");
}
