use loadgen::driver::Worker;

fn worker(rate: usize, write_pct: u64, cap: u16) -> Worker {
    Worker::new(10, rate, write_pct, cap, 1024, 4096)
}

#[test]
fn percentiles_of_a_hundred_distinct_values() {
    // One hundred distinct sorted samples: p50, p90 and p99 are read from
    // indexes 50, 90 and 99 — the integer-index convention, literally.
    let mut w = worker(1000, 0, 16);
    // Record shuffled so the report has to sort.
    for k in 0..100u64 {
        w.record_latency((k * 37) % 100 * 10);
    }
    let (p50, p90, p99) = w.latency_report();
    assert_eq!(p50, 500);
    assert_eq!(p90, 900);
    assert_eq!(p99, 990);
}

#[test]
fn percentiles_of_small_logs_collapse_low() {
    let mut w = worker(1000, 0, 16);
    w.record_latency(9);
    w.record_latency(3);
    let (p50, p90, p99) = w.latency_report();
    // len 2: indexes 1, 1, 1.
    assert_eq!((p50, p90, p99), (9, 9, 9));
    assert_eq!(w.sample_count(), 2);
}

#[test]
fn dispatch_gate_respects_cap_and_schedule() {
    let mut w = worker(100_000, 0, 4);
    w.start(5_000);
    // delay is 10_000 ns: the first slot opens after 5_010_000 ns.
    assert!(!w.should_dispatch(5_005, 0), "before the scheduled time");
    assert!(w.should_dispatch(5_011, 0), "past the scheduled time, under cap");
    assert!(w.should_dispatch(5_011, 3), "still under cap");
    assert!(!w.should_dispatch(5_011, 4), "at the cap");
    assert!(!w.should_dispatch(5_011, 200), "over the cap");
    w.advance_schedule();
    assert!(!w.should_dispatch(5_011, 0), "next slot not yet due");
    assert!(w.should_dispatch(5_021, 0), "next slot due");
}

#[test]
fn schedule_is_strictly_periodic() {
    let mut w = worker(1_000_000, 0, 1);
    w.start(0);
    // delay 1000 ns = 1 us: slots open strictly after 1 us, 2 us, ...
    assert!(w.should_dispatch(2, 0));
    w.advance_schedule();
    assert!(!w.should_dispatch(2, 0));
    assert!(w.should_dispatch(3, 0));
}

#[test]
fn running_window_matches_duration() {
    let mut w = worker(1000, 0, 1);
    w.start(1_000);
    assert!(w.running(1_000));
    assert!(w.running(10_000_999));
    assert!(!w.running(10_001_000), "10 s after start the run is over");
    w.finish(10_001_000);
    assert_eq!(w.elapsed_us(), 10_000_000);
}

#[test]
fn planned_ops_stay_in_range() {
    let w = worker(1000, 0, 16);
    for _ in 0..200 {
        let op = w.plan_op();
        assert!(op.lba < 1024);
        assert!(!op.is_write, "a zero write share plans only reads");
    }
    let w2 = worker(1000, 100, 16);
    for _ in 0..200 {
        assert!(w2.plan_op().is_write, "a full write share plans only writes");
    }
}

#[test]
fn write_decision_is_exact() {
    let w = worker(1000, 30, 16);
    assert!(w.decide_write(0));
    assert!(w.decide_write(29));
    assert!(!w.decide_write(30));
    assert!(!w.decide_write(99));
}
