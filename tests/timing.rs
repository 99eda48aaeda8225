use jxl_png::{apng_delay, apply_delay_floor, frame_delay_ms, ticks_to_ms, MIN_FRAME_DELAY_MS};

#[test]
fn three_ticks_at_thirty_per_second() {
    assert_eq!(ticks_to_ms(30, 1, 3, 1), 100);
    assert_eq!(frame_delay_ms(Some((30, 1)), Some(3)), 100);
}

#[test]
fn a_twentieth_tick_is_raised_to_the_floor() {
    // 0.05 ticks at 25 ticks per second.
    assert_eq!(ticks_to_ms(25, 1, 1, 20), 2);
    assert_eq!(apply_delay_floor(2), 10);
}

#[test]
fn floor_keeps_longer_delays() {
    assert_eq!(apply_delay_floor(0), MIN_FRAME_DELAY_MS);
    assert_eq!(apply_delay_floor(9), 10);
    assert_eq!(apply_delay_floor(10), 10);
    assert_eq!(apply_delay_floor(11), 11);
}

#[test]
fn still_streams_get_the_floor() {
    assert_eq!(frame_delay_ms(None, None), 10);
    assert_eq!(frame_delay_ms(None, Some(500)), 10);
}

#[test]
fn missing_duration_is_one_tick() {
    assert_eq!(frame_delay_ms(Some((1, 1)), None), 1000);
    assert_eq!(frame_delay_ms(Some((25, 1)), None), 40);
}

#[test]
fn rational_tick_rates() {
    // NTSC: 30000/1001 ticks per second, one tick is 33.366... ms.
    assert_eq!(ticks_to_ms(30000, 1001, 1, 1), 33);
    assert_eq!(ticks_to_ms(30000, 1001, 2, 1), 67);
    assert_eq!(frame_delay_ms(Some((100, 1)), Some(4)), 40);
    assert_eq!(frame_delay_ms(Some((100, 1)), Some(6)), 60);
}

#[test]
fn rounding_is_to_nearest() {
    assert_eq!(ticks_to_ms(3, 1, 1, 1), 333);
    assert_eq!(ticks_to_ms(3, 1, 2, 1), 667);
    // Exactly half a millisecond rounds up.
    assert_eq!(ticks_to_ms(2000, 1, 1, 1), 1);
    assert_eq!(ticks_to_ms(4000, 1, 1, 1), 0);
}

#[test]
fn degenerate_rates_give_zero() {
    assert_eq!(ticks_to_ms(0, 1, 5, 1), 0);
    assert_eq!(ticks_to_ms(10, 1, 5, 0), 0);
    assert_eq!(frame_delay_ms(Some((0, 1)), Some(5)), 10);
}

#[test]
fn huge_durations_saturate() {
    assert_eq!(ticks_to_ms(1, u32::MAX, u32::MAX, 1), u32::MAX);
    assert_eq!(frame_delay_ms(Some((1, u32::MAX)), Some(u32::MAX)), u32::MAX);
}

#[test]
fn apng_delays_are_milliseconds_over_1000() {
    assert_eq!(apng_delay(40), Some((40, 1000)));
    assert_eq!(apng_delay(60), Some((60, 1000)));
    assert_eq!(apng_delay(10), Some((10, 1000)));
    assert_eq!(apng_delay(65535), Some((65535, 1000)));
}

#[test]
fn long_apng_delays_are_reduced_or_refused() {
    assert_eq!(apng_delay(65536), Some((8192, 125)));
    assert_eq!(apng_delay(70_500), Some((141, 2)));
    assert_eq!(apng_delay(3_600_000), Some((3600, 1)));
    assert_eq!(apng_delay(70_499), None);
    assert_eq!(apng_delay(u32::MAX), None);
}
