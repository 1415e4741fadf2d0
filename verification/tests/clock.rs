use mqtt_node::hardware::network_clock::{NetworkClock, TICKS_PER_SECOND};

#[test]
fn the_clock_ticks_in_milliseconds() {
    assert_eq!(TICKS_PER_SECOND, 1_000);
}

#[test]
fn a_reading_that_fits_is_passed_on() {
    assert_eq!(NetworkClock::new(|| 0).try_now(), 0);
    assert_eq!(NetworkClock::new(|| 1_234_567).try_now(), 1_234_567);
    assert_eq!(NetworkClock::new(|| 0xffff_ffff).try_now(), u32::MAX);
}

#[test]
fn a_reading_is_narrowed_to_its_low_32_bits() {
    assert_eq!(NetworkClock::new(|| 0x1_0000_0000).try_now(), 0);
    assert_eq!(NetworkClock::new(|| 0x1_0000_0005).try_now(), 5);
    assert_eq!(NetworkClock::new(|| u64::MAX).try_now(), u32::MAX);
    assert_eq!(NetworkClock::new(|| 0xdead_beef_0bad_cafe).try_now(), 0x0bad_cafe);
}

#[test]
fn the_source_is_read_once_per_call() {
    let reads = std::cell::Cell::new(0u64);
    let clock = NetworkClock::new(|| {
        reads.set(reads.get() + 1);
        reads.get() * 10
    });
    assert_eq!(clock.try_now(), 10);
    assert_eq!(clock.try_now(), 20);
    assert_eq!(reads.get(), 2);
}

#[test]
fn a_clock_can_be_copied() {
    fn now() -> u64 {
        42
    }
    let clock = NetworkClock::new(now);
    let copy = clock;
    assert_eq!(clock.try_now(), 42);
    assert_eq!(copy.clone().try_now(), 42);
}
