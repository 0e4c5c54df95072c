use shmem_lab::spin::{
    deadline_from, expired, sleep_overran, spin_step, SpinStep, WaitLimit,
};
use shmem_lab::state::{init_step, InitAction, STATE_READY_TO_READ, STATE_READY_TO_WRITE};

#[test]
fn init_proposes_ready_to_write_for_fresh_cell() {
    assert_eq!(
        init_step(0),
        InitAction::TryCas { expected: 0, proposed: STATE_READY_TO_WRITE }
    );
    assert_eq!(
        init_step(17),
        InitAction::TryCas { expected: 17, proposed: STATE_READY_TO_WRITE }
    );
}

#[test]
fn init_leaves_valid_cell_alone() {
    assert_eq!(init_step(STATE_READY_TO_WRITE), InitAction::AlreadyValid);
    assert_eq!(init_step(STATE_READY_TO_READ), InitAction::AlreadyValid);
}

#[test]
fn bounded_deadline_is_start_plus_duration() {
    assert_eq!(deadline_from(50, WaitLimit::Bounded { nanos: 100 }), Some(150));
    assert_eq!(deadline_from(0, WaitLimit::Infinite), None);
}

#[test]
fn deadline_saturates_at_the_end_of_time() {
    assert_eq!(
        deadline_from(u64::MAX - 10, WaitLimit::Bounded { nanos: 100 }),
        Some(u64::MAX)
    );
}

#[test]
fn expiry_is_strictly_past_the_deadline() {
    assert!(!expired(150, Some(150)));
    assert!(expired(151, Some(150)));
    assert!(!expired(u64::MAX, None));
}

#[test]
fn spin_ready_wins_over_deadline() {
    // the awaited word is found on the same poll the deadline passes:
    // the wait succeeds
    let step = spin_step(STATE_READY_TO_READ, STATE_READY_TO_READ, 999, Some(100), 7);
    assert_eq!(step, SpinStep::Ready { spins: 7 });
}

#[test]
fn spin_times_out_past_deadline() {
    let step = spin_step(STATE_READY_TO_WRITE, STATE_READY_TO_READ, 101, Some(100), 7);
    assert_eq!(step, SpinStep::TimedOut);
}

#[test]
fn spin_continues_and_counts() {
    let step = spin_step(STATE_READY_TO_WRITE, STATE_READY_TO_READ, 99, Some(100), 7);
    assert_eq!(step, SpinStep::Continue { spins: 8 });
    let step = spin_step(STATE_READY_TO_WRITE, STATE_READY_TO_READ, 99, None, u64::MAX);
    assert_eq!(step, SpinStep::Continue { spins: u64::MAX });
}

#[test]
fn bounded_wait_times_out_near_its_deadline() {
    // a real busy wait on a channel stuck in ready-to-write, driven by the
    // per-poll decision: it gives up close to the requested 50 ms
    let started = std::time::Instant::now();
    let deadline = deadline_from(0, WaitLimit::Bounded { nanos: 50_000_000 });
    let mut spins: u64 = 0;
    loop {
        let now = started.elapsed().as_nanos().min(u64::MAX as u128) as u64;
        match spin_step(STATE_READY_TO_WRITE, STATE_READY_TO_READ, now, deadline, spins) {
            SpinStep::Ready { .. } => panic!("the awaited state cannot appear"),
            SpinStep::TimedOut => break,
            SpinStep::Continue { spins: next } => spins = next,
        }
    }
    let elapsed = started.elapsed();
    assert!(elapsed >= std::time::Duration::from_millis(50));
    assert!(elapsed < std::time::Duration::from_millis(500));
    assert!(spins > 0);
}

#[test]
fn sleep_overrun_is_more_than_ten_times() {
    assert!(!sleep_overran(100, 1000));
    assert!(sleep_overran(100, 1001));
    assert!(!sleep_overran(0, 0));
    assert!(sleep_overran(0, 1));
}
