use session_auth::chaos::{
    jittered_delay, random_delay, ChaosAction, ChaosConfig, ChaosError, ChaosEvent, Latency,
};

fn ms(n: u64) -> Latency {
    Latency::from_millis(n)
}

fn nanos(l: &Latency) -> u128 {
    l.as_secs() as u128 * 1_000_000_000 + l.subsec_nanos() as u128
}

#[test]
fn latency_parts() {
    let l = Latency::from_parts(3, 250_000_000);
    assert_eq!(l.as_secs(), 3);
    assert_eq!(l.subsec_nanos(), 250_000_000);
    assert_eq!(l.as_millis(), 3250);
    let m = Latency::from_millis(1_999);
    assert_eq!(m.as_secs(), 1);
    assert_eq!(m.subsec_nanos(), 999_000_000);
}

#[test]
fn latency_sub_and_add() {
    let a = Latency::from_parts(2, 100);
    let b = Latency::from_parts(1, 200);
    let d = a.saturating_sub(&b);
    assert_eq!((d.as_secs(), d.subsec_nanos()), (0, 999_999_900));
    let z = b.saturating_sub(&a);
    assert_eq!((z.as_secs(), z.subsec_nanos()), (0, 0));
    let s = d.add(&b);
    assert_eq!((s.as_secs(), s.subsec_nanos()), (2, 100));
}

#[test]
fn equal_bounds_give_shortest_latency() {
    let d = jittered_delay(&ms(40), &ms(40), 12345);
    assert_eq!(nanos(&d), 40_000_000);
    let r = random_delay(&ms(40), &ms(40));
    assert_eq!(nanos(&r), 40_000_000);
}

#[test]
fn jitter_adds_whole_milliseconds() {
    // 100 ms between the bounds: 1234 % 100 = 34 ms on top of the shortest.
    let d = jittered_delay(&ms(10), &ms(110), 1234);
    assert_eq!(nanos(&d), 44_000_000);
}

#[test]
fn span_below_a_millisecond_adds_nothing() {
    let lo = Latency::from_parts(0, 500);
    let hi = Latency::from_parts(0, 900_000);
    let d = jittered_delay(&lo, &hi, u128::MAX);
    assert_eq!(nanos(&d), 500);
}

#[test]
fn inverted_bounds_give_shortest_latency() {
    let d = jittered_delay(&ms(50), &ms(20), 999);
    assert_eq!(nanos(&d), 50_000_000);
}

#[test]
fn huge_span_does_not_overflow() {
    let lo = Latency::from_parts(0, 0);
    let hi = Latency::from_parts(u64::MAX, 999_999_999);
    let d = jittered_delay(&lo, &hi, u128::MAX);
    assert!(nanos(&d) < nanos(&hi));
    let lo2 = Latency::from_parts(u64::MAX - 5, 0);
    let d2 = jittered_delay(&lo2, &hi, u128::MAX);
    assert!(nanos(&d2) >= nanos(&lo2) && nanos(&d2) < nanos(&hi));
}

#[test]
fn random_delay_within_bounds() {
    for _ in 0..64 {
        let d = random_delay(&ms(5), &ms(25));
        assert!(nanos(&d) >= 5_000_000 && nanos(&d) < 25_000_000);
        assert_eq!(nanos(&d) % 1_000_000, 0);
    }
}

#[test]
fn chaos_error_message() {
    let e = ChaosError::new("injected chaos failure");
    assert_eq!(e.to_string(), "injected chaos failure");
}

#[test]
fn disabled_injector_forwards() {
    let c = ChaosConfig::new(false, ms(10), ms(20));
    assert!(matches!(c.step(ChaosEvent::Request), ChaosAction::Forward));
}

#[test]
fn enabled_injector_draws_first() {
    let c = ChaosConfig::new(true, ms(10), ms(20));
    assert!(matches!(c.step(ChaosEvent::Request), ChaosAction::DrawFault));
}

#[test]
fn drawn_fault_fails_request() {
    let c = ChaosConfig::new(true, ms(10), ms(20));
    match c.step(ChaosEvent::FaultDrawn(true)) {
        ChaosAction::Fail(e) => assert_eq!(e.to_string(), "injected chaos failure"),
        _ => panic!("expected a failure"),
    }
}

#[test]
fn no_fault_sleeps_then_forwards() {
    let c = ChaosConfig::new(true, ms(10), ms(20));
    match c.step(ChaosEvent::FaultDrawn(false)) {
        ChaosAction::Sleep(d) => assert!(nanos(&d) >= 10_000_000 && nanos(&d) < 20_000_000),
        _ => panic!("expected a delay"),
    }
    assert!(matches!(c.step(ChaosEvent::Slept), ChaosAction::Forward));
}
