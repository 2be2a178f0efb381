use parcount::counter;
use parcount::plan::WorkSpec;
use parcount::reduce::reduce_partials;

#[test]
fn zero_workers_is_rejected() {
    assert!(WorkSpec::new(5, 0).is_none());
}

#[test]
fn shares_are_equal_floor_divisions() {
    let spec = WorkSpec::new(803, 8).unwrap();
    assert_eq!(spec.share(), 100);
    let shares = spec.shares();
    assert_eq!(shares, vec![100; 8]);
}

#[test]
fn single_worker_gets_the_whole_total() {
    let spec = WorkSpec::new(42, 1).unwrap();
    assert_eq!(spec.shares(), vec![42]);
}

#[test]
fn reduce_sums_partials() {
    assert_eq!(reduce_partials(&vec![]), Some(0));
    assert_eq!(reduce_partials(&vec![1, 2, 3]), Some(6));
    assert_eq!(reduce_partials(&vec![usize::MAX]), Some(usize::MAX));
}

#[test]
fn reduce_reports_overflow() {
    assert_eq!(reduce_partials(&vec![usize::MAX, 1]), None);
}

#[test]
fn fan_out_fan_in_pipeline() {
    // One worker per share, run here one after another: the reduction of the
    // partial results is the floor-division product, not the total.
    let spec = WorkSpec::new(803, 8).unwrap();
    let mut partials = Vec::new();
    for share in spec.shares() {
        partials.push(counter(share));
    }
    assert_eq!(reduce_partials(&partials), Some(800));
}
