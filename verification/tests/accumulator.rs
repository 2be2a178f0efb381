use parcount::accumulator::SharedAccumulator;

#[test]
fn starts_at_zero() {
    let acc = SharedAccumulator::new();
    assert_eq!(acc.value(), 0);
}

#[test]
fn adds_partials() {
    let mut acc = SharedAccumulator::new();
    assert!(acc.add(7));
    assert!(acc.add(5));
    assert_eq!(acc.value(), 12);
}

#[test]
fn merge_order_does_not_matter() {
    // The same eight partial results merged in many arrival orders always
    // yield the one expected value.
    let partials: Vec<usize> = vec![100, 3, 250, 7, 100, 40, 1, 299];
    let expected: usize = 800;
    for rotation in 0..partials.len() {
        for _ in 0..125 {
            let mut acc = SharedAccumulator::new();
            for i in 0..partials.len() {
                assert!(acc.add(partials[(i + rotation) % partials.len()]));
            }
            assert_eq!(acc.value(), expected);
        }
    }
}

#[test]
fn overflow_is_reported_and_leaves_value_unchanged() {
    let mut acc = SharedAccumulator::new();
    assert!(acc.add(usize::MAX));
    assert!(!acc.add(1));
    assert_eq!(acc.value(), usize::MAX);
    assert!(acc.add(0));
}
