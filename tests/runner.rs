use pg_task::dispatch::{next_action, recv_round, RecvAction, Received};
use pg_task::executor::{decide_outcome, StepReport};
use pg_task::notifier::Notifier;
use pg_task::store::TaskTable;
use pg_task::task::{apply_outcome, Outcome, Task};
use pg_task::time::{later, wait_before_running};
use pg_task::worker::Worker;

const MS: u64 = 1_000;

fn picked(r: Received) -> usize {
    match r {
        Received::Picked(i) => i,
        Received::Idle => panic!("nothing picked: idle"),
        Received::Wait(d) => panic!("nothing picked: wait {}", d),
    }
}

fn row(id: u128, tried: i32) -> Task {
    Task {
        id,
        step: String::from("S"),
        tried,
        wakeup_at: 5,
        is_running: true,
        error: None,
        updated_at: 3,
    }
}

#[test]
fn simple_completion() {
    let mut t = TaskTable::new();
    let id = t.enqueue(String::from("A"), 0, 0).unwrap();
    let i = picked(recv_round(&mut t, 0));
    assert_eq!(t.get(i).step, "A");
    assert!(t.get(i).is_running);
    let o = decide_outcome(StepReport::Done, t.get(i).tried, 0, 1_000 * MS);
    assert!(matches!(o, Outcome::Complete));
    assert_eq!(t.record_outcome(id, o, 10), Some(0));
    assert_eq!(t.len(), 0);
}

#[test]
fn two_step_transition() {
    let mut t = TaskTable::new();
    let id = t.enqueue(String::from("A"), 0, 0).unwrap();
    let i = picked(recv_round(&mut t, 0));
    let report = StepReport::Next { step: String::from("B"), delay: 0 };
    let o = decide_outcome(report, t.get(i).tried, 0, 1_000 * MS);
    t.record_outcome(id, o, 20).unwrap();
    assert_eq!(t.len(), 1);
    let r = t.get(0);
    assert_eq!(r.step, "B");
    assert_eq!(r.tried, 0);
    assert!(!r.is_running);
    assert_eq!(r.wakeup_at, 20);
    let i = picked(recv_round(&mut t, 20));
    let o = decide_outcome(StepReport::Done, t.get(i).tried, 0, 1_000 * MS);
    t.record_outcome(id, o, 30).unwrap();
    assert_eq!(t.len(), 0);
}

#[test]
fn retry_then_fail() {
    let limit: i32 = 2;
    let delay: u64 = 100 * MS;
    let mut t = TaskTable::new();
    let id = t.enqueue(String::from("C"), 0, 0).unwrap();
    let mut now: i64 = 0;
    let mut invocations = 0;
    loop {
        match recv_round(&mut t, now) {
            Received::Picked(i) => {
                invocations += 1;
                let o = decide_outcome(StepReport::Failed(String::from("boom")), t.get(i).tried, limit, delay);
                t.record_outcome(id, o, now).unwrap();
            }
            Received::Wait(d) => now += d as i64,
            Received::Idle => break,
        }
    }
    assert_eq!(invocations, 3);
    assert_eq!(now, 200_000);
    let r = t.get(0);
    assert_eq!(r.tried, 2);
    assert_eq!(r.error.as_deref(), Some("boom"));
    assert!(!r.is_running);
}

#[test]
fn delayed_schedule() {
    let mut t = TaskTable::new();
    t.enqueue(String::from("D"), later(0, 500 * MS), 0).unwrap();
    assert!(matches!(recv_round(&mut t, 0), Received::Wait(500_000)));
    assert!(matches!(recv_round(&mut t, 499_999), Received::Wait(1)));
    assert!(!t.get(0).is_running);
    assert_eq!(picked(recv_round(&mut t, 500_000)), 0);
}

#[test]
fn crash_recovery() {
    let mut t = TaskTable::new();
    t.enqueue(String::from("E"), 0, 0).unwrap();
    t.mark_running(0, 1);
    assert!(matches!(recv_round(&mut t, 2), Received::Idle));
    assert_eq!(t.unlock_all(), 1);
    assert!(!t.get(0).is_running);
    assert_eq!(picked(recv_round(&mut t, 3)), 0);
}

#[test]
fn unlock_twice_same_as_once() {
    let mut t = TaskTable::new();
    for k in 0..4 {
        t.enqueue(format!("S{}", k), k, 0).unwrap();
    }
    t.mark_running(1, 5);
    t.mark_running(3, 5);
    assert_eq!(t.unlock_all(), 2);
    let once: Vec<(u128, bool, i64)> = (0..t.len()).map(|i| (t.get(i).id, t.get(i).is_running, t.get(i).updated_at)).collect();
    assert_eq!(t.unlock_all(), 0);
    let twice: Vec<(u128, bool, i64)> = (0..t.len()).map(|i| (t.get(i).id, t.get(i).is_running, t.get(i).updated_at)).collect();
    assert_eq!(once, twice);
    assert!(twice.iter().all(|r| !r.1));
}

#[test]
fn closest_is_earliest_then_first_inserted() {
    let mut t = TaskTable::new();
    t.enqueue(String::from("late"), 50, 0).unwrap();
    t.enqueue(String::from("early1"), 10, 0).unwrap();
    t.enqueue(String::from("early2"), 10, 0).unwrap();
    assert_eq!(t.fetch_closest(), Some(1));
    t.mark_running(1, 0);
    assert_eq!(t.fetch_closest(), Some(2));
    t.mark_running(2, 0);
    assert_eq!(t.fetch_closest(), Some(0));
    t.mark_running(0, 0);
    assert_eq!(t.fetch_closest(), None);
}

#[test]
fn parked_task_is_never_selected() {
    let mut t = TaskTable::new();
    let id = t.enqueue(String::from("P"), 0, 0).unwrap();
    t.mark_running(0, 0);
    let o = decide_outcome(StepReport::Broken(String::from("bad step")), 0, 5, MS);
    assert!(matches!(&o, Outcome::Fail { error } if error == "bad step"));
    t.record_outcome(id, o, 1).unwrap();
    assert_eq!(t.get(0).error.as_deref(), Some("bad step"));
    assert_eq!(t.fetch_closest(), None);
    assert!(matches!(recv_round(&mut t, 100), Received::Idle));
}

#[test]
fn record_outcome_on_unknown_id_changes_nothing() {
    let mut t = TaskTable::new();
    let id = t.enqueue(String::from("A"), 0, 0).unwrap();
    assert_eq!(t.record_outcome(id + 1, Outcome::Complete, 1), None);
    assert_eq!(t.len(), 1);
}

#[test]
fn enqueue_assigns_fresh_ids() {
    let mut t = TaskTable::new();
    let a = t.enqueue(String::from("A"), 7, 3).unwrap();
    let b = t.enqueue(String::from("B"), 7, 3).unwrap();
    assert_ne!(a, b);
    let r = t.get(1);
    assert_eq!((r.id, r.tried, r.wakeup_at, r.is_running, r.updated_at), (b, 0, 7, false, 3));
    assert!(r.error.is_none());
}

#[test]
fn outcomes_on_a_row() {
    assert!(apply_outcome(row(1, 0), Outcome::Complete, 9).is_none());
    let r = apply_outcome(row(1, 1), Outcome::Retry { delay: 4 }, 9).unwrap();
    assert_eq!((r.tried, r.wakeup_at, r.is_running, r.updated_at), (2, 13, false, 9));
    assert_eq!(r.step, "S");
    let r = apply_outcome(row(1, 3), Outcome::NextStep { step: String::from("N"), delay: 0 }, 9).unwrap();
    assert_eq!((r.tried, r.wakeup_at, r.step.as_str()), (0, 9, "N"));
    let r = apply_outcome(row(1, 3), Outcome::Fail { error: String::from("x") }, 9).unwrap();
    assert_eq!((r.tried, r.wakeup_at, r.is_running), (3, 9, false));
    assert_eq!(r.error.as_deref(), Some("x"));
    assert!(r.updated_at >= 3);
}

#[test]
fn retry_decision_follows_the_limit() {
    let e = || StepReport::Failed(String::from("e"));
    assert!(matches!(decide_outcome(e(), 0, 2, 7), Outcome::Retry { delay: 7 }));
    assert!(matches!(decide_outcome(e(), 1, 2, 7), Outcome::Retry { delay: 7 }));
    assert!(matches!(decide_outcome(e(), 2, 2, 7), Outcome::Fail { .. }));
    assert!(matches!(decide_outcome(e(), 0, 0, 7), Outcome::Fail { .. }));
}

#[test]
fn dispatcher_actions() {
    assert!(matches!(next_action(None, 5), RecvAction::WaitForever));
    assert!(matches!(next_action(Some(5), 5), RecvAction::Run));
    assert!(matches!(next_action(Some(4), 5), RecvAction::Run));
    assert!(matches!(next_action(Some(9), 5), RecvAction::WaitFor(4)));
}

#[test]
fn time_arithmetic() {
    assert_eq!(later(10, 5), 15);
    assert_eq!(later(i64::MAX - 1, 5), i64::MAX);
    assert_eq!(later(-10, 3), -7);
    assert_eq!(wait_before_running(10, 10), None);
    assert_eq!(wait_before_running(10, 3), Some(7));
    assert_eq!(wait_before_running(i64::MAX, i64::MIN), Some(u64::MAX));
}

#[test]
fn edge_triggered_wake() {
    let mut n = Notifier::new();
    let before = n.subscribe();
    n.notify();
    let w = n.subscribe();
    assert!(!n.fired(&w));
    assert!(n.fired(&before));
    n.notify();
    assert!(n.fired(&w));
}

#[test]
fn worker_concurrency() {
    let w: Worker<u8, ()> = Worker::new(());
    assert!(w.concurrency() >= 1);
    let w = w.with_concurrency(2);
    assert_eq!(w.concurrency(), 2);
}
