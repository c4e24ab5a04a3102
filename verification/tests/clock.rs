use chust8::clock::{
    default_cpu_frequency, default_timers_frequency, Frequency, RateLimiter, NANOS_PER_MILLI,
};

#[test]
fn frequency() {
    let mut frequency = Frequency::new(1);

    assert_eq!(frequency.value(), 1, "Frequency value was not correctly set in constructor");

    assert_eq!(frequency.period(), 1000, "1 hz does not equal to a period of 1s");

    frequency.set_value(30);
    assert_eq!(frequency.value(), 30, "set_value() did not update value correctly");

    assert_eq!(frequency.period(), 33, "15 hz does not equal to a period of 33ms");

    assert_eq!(default_cpu_frequency().value(), 500, "Unexpected default cpu frequency value");

    assert_eq!(default_cpu_frequency().period(), 2, "Default CPU period is not equal to 2ms");

    assert_eq!(
        default_timers_frequency().value(),
        60,
        "Unexpected default timers frequency value"
    );

    assert_eq!(
        default_timers_frequency().period(),
        16,
        "Default timers period is not equal to 16ms"
    );

    frequency.set_value(0);

    assert_eq!(frequency.period(), 0, "0hz period is not equal to 0ms");
}

#[test]
fn rate_limiter() {
    let frequency = Frequency::new(1000);
    let test_time: u64 = 100;

    let mut counter: u64 = 1;
    let mut rate_limiter = RateLimiter::new(frequency);

    // The clock is read every tenth of a millisecond for the whole test
    // time, the first time a little after its start.
    let mut now: u64 = NANOS_PER_MILLI / 20;
    while now <= test_time * NANOS_PER_MILLI {
        if rate_limiter.execute(now) {
            counter += 1;
            assert!(
                counter <= test_time / frequency.period(),
                "Work was let through too many times. Max frequency was not respected"
            );
        }
        now += NANOS_PER_MILLI / 10;
    }

    let expected_value = test_time / frequency.period();
    assert_eq!(
        counter, expected_value,
        "Work was not let through the expected number of times given the frequency and test time"
    );
}

#[test]
fn rate_limiter_first_call_starts_the_measurement() {
    let mut limiter = RateLimiter::new(Frequency::new(500));
    assert!(!limiter.execute(10_000_000));
    assert!(!limiter.execute(11_999_999));
    assert!(limiter.execute(12_000_000));
    assert!(!limiter.execute(13_999_999));
    assert!(limiter.execute(14_000_000));
    assert!(!limiter.execute(14_000_000));
    // A clock that goes back lets nothing through.
    assert!(!limiter.execute(0));
    assert!(limiter.execute(20_000_000));
}

#[test]
fn rate_limiter_of_zero_hertz_lets_everything_through() {
    let mut limiter = RateLimiter::new(Frequency::new(0));
    assert!(limiter.execute(5));
    assert!(limiter.execute(5));
    assert!(limiter.execute(6));
    let mut fast = RateLimiter::new(Frequency::new(1001));
    assert!(fast.execute(0));
    assert!(fast.execute(0));
}

#[test]
fn frequency_period_rounds_down() {
    assert_eq!(Frequency::new(3).period(), 333);
    assert_eq!(Frequency::new(7).period(), 142);
    assert_eq!(Frequency::new(1000).period(), 1);
    assert_eq!(Frequency::new(1001).period(), 0);
    assert_eq!(Frequency::new(u64::MAX).period(), 0);
}
