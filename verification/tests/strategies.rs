use parcount::counter;
use parcount::rayon_counter;

#[test]
fn divisible_total_returns_total() {
    assert_eq!(counter(800), 800);
    assert_eq!(rayon_counter(800), 800);
}

#[test]
fn remainder_is_dropped() {
    // 803 / 8 == 100, so the fan-out strategies return 800 while the
    // sequential baseline counts every unit.
    assert_eq!(counter(803), 803);
    assert_eq!(rayon_counter(803), 800);
}

#[test]
fn repeated_invocation_is_stable() {
    let first = rayon_counter(803);
    for _ in 0..100 {
        assert_eq!(rayon_counter(803), first);
    }
    assert_eq!(counter(12345), counter(12345));
}

#[test]
fn stress_barrier_completes() {
    assert_eq!(rayon_counter(8_000_000), 8_000_000);
}

#[test]
fn zero_total_returns_zero() {
    assert_eq!(counter(0), 0);
    assert_eq!(rayon_counter(0), 0);
}
