use relentless::sleep::{embassy_ticks, to_embassy_duration};
use relentless::Duration;

const ARBITRARY_MICROS: u64 = 1_500;

#[test]
fn to_embassy_duration_preserves_micros() {
    assert_eq!(
        to_embassy_duration(Duration::from_micros(ARBITRARY_MICROS)),
        embassy_time::Duration::from_micros(ARBITRARY_MICROS)
    );
}

#[test]
fn to_embassy_duration_saturates_at_embassy_max() {
    assert_eq!(
        to_embassy_duration(Duration::longest()),
        embassy_time::Duration::MAX
    );
}

#[test]
fn tick_rate_is_the_one_that_embassy_uses() {
    let dur = Duration::from_micros(3);
    assert_eq!(
        to_embassy_duration(dur).as_ticks(),
        embassy_ticks(dur, embassy_time::TICK_HZ)
    );
}

#[test]
fn ticks_round_up_and_saturate() {
    assert_eq!(embassy_ticks(Duration::from_micros(1), 32_768), 1);
    assert_eq!(embassy_ticks(Duration::from_micros(1_000_000), 32_768), 32_768);
    assert_eq!(embassy_ticks(Duration::from_micros(1_000_001), 32_768), 32_769);
    assert_eq!(embassy_ticks(Duration::from_nanos(999), 1_000_000), 0);
    assert_eq!(embassy_ticks(Duration::zero(), 1_000_000), 0);
    assert_eq!(embassy_ticks(Duration::longest(), u64::MAX), u64::MAX);
    assert_eq!(embassy_ticks(Duration::from_micros(u64::MAX), 1_000_000), u64::MAX);
}
