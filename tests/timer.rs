use core::sync::atomic::{AtomicU32, Ordering};
use rp2040_pwm_timer::ticks::next_tick;
use rp2040_pwm_timer::{advance_counter, ExtDrivenTimer};

fn is_ready(r: nb::Result<(), core::convert::Infallible>) -> bool {
    match r {
        Ok(()) => true,
        Err(nb::Error::WouldBlock) => false,
        Err(nb::Error::Other(e)) => match e {},
    }
}

#[test]
fn next_tick_counts_and_wraps() {
    assert_eq!(next_tick(0), 1);
    assert_eq!(next_tick(41), 42);
    assert_eq!(next_tick(u32::MAX), 0);
}

#[test]
fn two_wraps_add_two() {
    let counter = AtomicU32::new(7);
    advance_counter(&counter);
    advance_counter(&counter);
    assert_eq!(counter.load(Ordering::Relaxed), 9);

    let timer_counter = AtomicU32::new(u32::MAX);
    let mut timer = ExtDrivenTimer::<1000>::new(&timer_counter);
    assert_eq!(timer.now(), u32::MAX);
    advance_counter(&timer_counter);
    assert_eq!(timer.now(), 0);
    advance_counter(&timer_counter);
    assert_eq!(timer.now(), 1);
}

#[test]
fn now_is_the_counter() {
    let counter = AtomicU32::new(0);
    let mut timer = ExtDrivenTimer::<1000>::new(&counter);
    for c in [0u32, 1, 5, 1000, 0x8000_0000, u32::MAX - 1, u32::MAX] {
        counter.store(c, Ordering::Relaxed);
        assert_eq!(timer.now(), c);
        assert_eq!(timer.ticks(), c as u64);
    }
}

#[test]
fn start_wait_tick_scenario() {
    let counter = AtomicU32::new(0);
    let mut timer = ExtDrivenTimer::<1000>::new(&counter);
    assert_eq!(timer.start(5), Ok(()));
    counter.store(4, Ordering::Relaxed);
    assert!(!is_ready(timer.wait()));
    advance_counter(&counter);
    assert_eq!(counter.load(Ordering::Relaxed), 5);
    assert!(is_ready(timer.wait()));
}

#[test]
fn idle_timer_never_ready() {
    let counter = AtomicU32::new(0);
    let mut timer = ExtDrivenTimer::<1000>::new(&counter);
    for c in [0u32, 1, 0x7FFF_FFFF, u32::MAX] {
        counter.store(c, Ordering::Relaxed);
        assert!(!is_ready(timer.wait()));
    }
}

#[test]
fn cancel_idle_stays_idle() {
    let counter = AtomicU32::new(3);
    let mut timer = ExtDrivenTimer::<1000>::new(&counter);
    assert_eq!(timer.cancel(), Ok(()));
    assert_eq!(timer.cancel(), Ok(()));
    assert!(!is_ready(timer.wait()));
    assert!(!is_ready(timer.wait_at(3)));
}

#[test]
fn cancel_disarms() {
    let counter = AtomicU32::new(0);
    let mut timer = ExtDrivenTimer::<1000>::new(&counter);
    timer.start(2).unwrap();
    counter.store(10, Ordering::Relaxed);
    assert!(is_ready(timer.wait()));
    timer.cancel().unwrap();
    assert!(!is_ready(timer.wait()));
}

#[test]
fn second_start_replaces_first() {
    let counter = AtomicU32::new(0);
    let mut timer = ExtDrivenTimer::<1000>::new(&counter);
    timer.start(5).unwrap();
    counter.store(10, Ordering::Relaxed);
    timer.start(5).unwrap();
    assert!(!is_ready(timer.wait()));
    counter.store(14, Ordering::Relaxed);
    assert!(!is_ready(timer.wait()));
    counter.store(15, Ordering::Relaxed);
    assert!(is_ready(timer.wait()));
}

#[test]
fn ready_stays_ready() {
    let counter = AtomicU32::new(100);
    let mut timer = ExtDrivenTimer::<1000>::new(&counter);
    timer.start(50).unwrap();
    counter.store(150, Ordering::Relaxed);
    assert!(is_ready(timer.wait()));
    for c in [150u32, 151, 1_000, 1_000_000, 150 + 0x8000_0001] {
        counter.store(c, Ordering::Relaxed);
        assert!(is_ready(timer.wait()));
        assert!(is_ready(timer.wait()));
    }
}

#[test]
fn deadline_wraps_around() {
    let counter = AtomicU32::new(0);
    let mut timer = ExtDrivenTimer::<1000>::new(&counter);
    timer.start_at(u32::MAX - 1, 5);
    assert!(!is_ready(timer.wait_at(u32::MAX)));
    assert!(!is_ready(timer.wait_at(0)));
    assert!(!is_ready(timer.wait_at(2)));
    assert!(is_ready(timer.wait_at(3)));
    assert!(is_ready(timer.wait_at(4)));
}

#[test]
fn start_at_adds_duration() {
    let counter = AtomicU32::new(0);
    let mut timer = ExtDrivenTimer::<1000>::new(&counter);
    timer.start_at(1000, 250);
    assert!(!is_ready(timer.wait_at(1000)));
    assert!(!is_ready(timer.wait_at(1249)));
    assert!(is_ready(timer.wait_at(1250)));
}

#[test]
fn zero_duration_is_ready_at_once() {
    let counter = AtomicU32::new(77);
    let mut timer = ExtDrivenTimer::<1000>::new(&counter);
    timer.start(0).unwrap();
    assert!(is_ready(timer.wait()));
}

#[test]
fn modular_order_half_range() {
    let counter = AtomicU32::new(0);
    let mut timer = ExtDrivenTimer::<1000>::new(&counter);
    timer.start_at(0, 0);
    assert!(is_ready(timer.wait_at(0)));
    assert!(is_ready(timer.wait_at(0x8000_0000)));
    assert!(is_ready(timer.wait_at(0x8000_0001)));
    assert!(!is_ready(timer.wait_at(0x8000_0002)));
    assert!(!is_ready(timer.wait_at(u32::MAX)));
}
