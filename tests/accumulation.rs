use raytracer::{Accumulation, FrameTask, LineTask};

#[test]
fn new_state_has_no_samples() {
    let a = Accumulation::new(4, 3);
    assert_eq!(a.width(), 4);
    assert_eq!(a.height(), 3);
    assert_eq!(a.iteration(), 0);
    assert_eq!(a.line(), 0);
}

#[test]
fn scanlines_advance_and_wrap_into_the_next_sweep() {
    let mut a = Accumulation::new(4, 3);
    let t0 = a.next_line().unwrap();
    assert_eq!(t0, LineTask { row: 0, samples: 0, reseed: Some(0) });
    let t1 = a.next_line().unwrap();
    assert_eq!(t1, LineTask { row: 1, samples: 0, reseed: None });
    let t2 = a.next_line().unwrap();
    assert_eq!(t2, LineTask { row: 2, samples: 0, reseed: None });
    assert_eq!(a.iteration(), 1);
    assert_eq!(a.line(), 0);
    let t3 = a.next_line().unwrap();
    assert_eq!(t3, LineTask { row: 0, samples: 1, reseed: Some(1) });
    assert_eq!(a.line(), 1);
}

#[test]
fn every_row_gets_one_sample_per_sweep() {
    let mut a = Accumulation::new(2, 5);
    let mut counts = vec![0u64; 5];
    for _ in 0..5 * 7 {
        let t = a.next_line().unwrap();
        assert_eq!(t.samples, counts[t.row]);
        counts[t.row] += 1;
    }
    assert_eq!(counts, vec![7; 5]);
    assert_eq!(a.iteration(), 7);
    assert_eq!(a.line(), 0);
}

#[test]
fn resize_resets_samples_to_zero() {
    let mut a = Accumulation::new(4, 3);
    for _ in 0..8 {
        a.next_line().unwrap();
    }
    assert_eq!(a.iteration(), 2);
    assert!(a.sync(5, 3));
    assert_eq!(a.iteration(), 0);
    assert_eq!(a.line(), 0);
    assert_eq!(a.width(), 5);
    let t = a.next_line().unwrap();
    assert_eq!(t.samples, 0);
    assert_eq!(t.row, 0);
}

#[test]
fn sync_to_same_size_keeps_samples() {
    let mut a = Accumulation::new(4, 3);
    for _ in 0..4 {
        a.next_line().unwrap();
    }
    assert!(!a.sync(4, 3));
    assert_eq!(a.iteration(), 1);
    assert_eq!(a.line(), 1);
}

#[test]
fn explicit_resize_starts_over() {
    let mut a = Accumulation::new(4, 3);
    a.next_line().unwrap();
    a.resize(4, 3);
    assert_eq!(a.iteration(), 0);
    assert_eq!(a.line(), 0);
}

#[test]
fn degenerate_surfaces_yield_no_work() {
    let mut a = Accumulation::new(1, 1);
    assert_eq!(a.next_line(), None);
    assert_eq!(a.next_frame(), None);
    assert_eq!(a.iteration(), 0);
    assert_eq!(a.line(), 0);
    let mut b = Accumulation::new(640, 0);
    assert_eq!(b.next_line(), None);
}

#[test]
fn frames_count_iterations_and_seed_from_them() {
    let mut a = Accumulation::new(3, 2);
    assert_eq!(a.next_frame(), Some(FrameTask { samples: 0, seed: 0 }));
    assert_eq!(a.next_frame(), Some(FrameTask { samples: 1, seed: 1 }));
    assert_eq!(a.iteration(), 2);
    assert_eq!(a.line(), 0);
}
