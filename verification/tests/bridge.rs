use std::cell::Cell;

use pyo3_asyncio::bridge::{
    current_loop, resolve_receipt, settle, CancelSignal, CancelWatch, CancellablePoll, FutureStatus,
    OneShot, Polled, SettleOnce, Settlement, TaskEnd,
};

#[test]
fn task_local_loop_wins_over_running_loop() {
    let asked = Cell::new(false);
    let r: Result<&str, &str> = current_loop(Some("task loop"), || {
        asked.set(true);
        Ok("thread loop")
    });
    assert_eq!(r, Ok("task loop"));
    assert!(!asked.get());
}

#[test]
fn running_loop_is_the_fallback() {
    let r: Result<&str, &str> = current_loop(None, || Ok("thread loop"));
    assert_eq!(r, Ok("thread loop"));
    let r: Result<&str, &str> = current_loop(None, || Err("no running event loop"));
    assert_eq!(r, Err("no running event loop"));
}

fn settled(end: TaskEnd<i32, &'static str>, status: FutureStatus) -> (Option<Settlement<i32, &'static str>>, bool) {
    let asked = Cell::new(false);
    let r = settle(end, || {
        asked.set(true);
        status
    });
    (r, asked.get())
}

#[test]
fn finished_future_resolves_or_rejects() {
    match settled(TaskEnd::Finished(Ok(7)), FutureStatus::Live) {
        (Some(Settlement::Resolve(7)), true) => {}
        _ => panic!("expected Resolve(7)"),
    }
    match settled(TaskEnd::Finished(Err("boom")), FutureStatus::Live) {
        (Some(Settlement::Reject("boom")), true) => {}
        _ => panic!("expected Reject"),
    }
}

#[test]
fn panicked_task_rejects_with_rust_panic() {
    match settled(TaskEnd::Panicked, FutureStatus::Live) {
        (Some(Settlement::RejectPanic), true) => {}
        _ => panic!("expected RejectPanic"),
    }
}

#[test]
fn cancelled_python_future_is_left_alone() {
    for end in [TaskEnd::Finished(Ok(1)), TaskEnd::Finished(Err("e")), TaskEnd::Panicked] {
        let (r, asked) = settled(end, FutureStatus::Cancelled);
        assert!(r.is_none());
        assert!(asked);
    }
}

#[test]
fn unknown_status_counts_as_not_cancelled() {
    match settled(TaskEnd::Finished(Ok(3)), FutureStatus::Unknown) {
        (Some(Settlement::Resolve(3)), true) => {}
        _ => panic!("expected Resolve(3)"),
    }
}

#[test]
fn aborted_task_settles_nothing_and_asks_nothing() {
    let (r, asked) = settled(TaskEnd::Aborted, FutureStatus::Live);
    assert!(r.is_none());
    assert!(!asked);
}

#[test]
fn ready_future_wins_over_cancellation() {
    let mut w = CancelWatch::new();
    let polled = Cell::new(false);
    let r = w.poll(Polled::Ready(5), || {
        polled.set(true);
        CancelSignal::Cancelled
    });
    assert!(matches!(r, CancellablePoll::Ready(5)));
    assert!(!polled.get());
    assert!(w.watching());
}

#[test]
fn cancellation_stops_the_future_once() {
    let mut w = CancelWatch::new();
    assert!(matches!(w.poll(Polled::<i32>::Pending, || CancelSignal::Waiting), CancellablePoll::Pending));
    assert!(w.watching());
    assert!(matches!(w.poll(Polled::<i32>::Pending, || CancelSignal::Cancelled), CancellablePoll::Cancelled));
    assert!(!w.watching());
    let polled = Cell::new(false);
    let r = w.poll(Polled::<i32>::Pending, || {
        polled.set(true);
        CancelSignal::Cancelled
    });
    assert!(matches!(r, CancellablePoll::Pending));
    assert!(!polled.get());
}

#[test]
fn dropped_sender_stops_watching_without_cancelling() {
    let mut w = CancelWatch::new();
    assert!(matches!(w.poll(Polled::<i32>::Pending, || CancelSignal::SenderDropped), CancellablePoll::Pending));
    assert!(!w.watching());
    assert!(matches!(w.poll(Polled::Ready(9), || CancelSignal::Cancelled), CancellablePoll::Ready(9)));
}

#[test]
fn one_shot_fires_once() {
    let mut slot = OneShot::new(Some("tx"));
    assert!(slot.is_armed());
    assert_eq!(slot.fire(), Some("tx"));
    assert!(!slot.is_armed());
    assert_eq!(slot.fire(), None);
}

#[test]
fn one_shot_fires_only_on_cancellation() {
    let mut slot = OneShot::new(Some(1u8));
    assert_eq!(slot.fire_if(false), None);
    assert!(slot.is_armed());
    assert_eq!(slot.fire_if(true), Some(1));
    assert_eq!(slot.fire_if(true), None);
    let mut empty: OneShot<u8> = OneShot::new(None);
    assert!(!empty.is_armed());
    assert_eq!(empty.fire(), None);
}

#[test]
fn receipt_is_the_delivered_result() {
    let r: Result<i32, String> = resolve_receipt(Some(Ok(4)), || "cancelled".to_string());
    assert_eq!(r, Ok(4));
    let r: Result<i32, String> = resolve_receipt(Some(Err("raised".to_string())), || "cancelled".to_string());
    assert_eq!(r, Err("raised".to_string()));
}

#[test]
fn missing_receipt_is_a_cancellation() {
    let r: Result<i32, String> = resolve_receipt(None, || "CancelledError".to_string());
    assert_eq!(r, Err("CancelledError".to_string()));
}

#[test]
fn settle_once_settles_a_single_time() {
    let mut once = SettleOnce::new();
    // the driving task finished: its result settles the future
    match once.settle(TaskEnd::Finished(Ok::<i32, &str>(1)), || FutureStatus::Live) {
        Some(Settlement::Resolve(1)) => {}
        _ => panic!("expected Resolve(1)"),
    }
    // a panic reported afterwards settles nothing and asks nothing
    let asked = Cell::new(false);
    let r = once.settle(TaskEnd::<i32, &str>::Panicked, || {
        asked.set(true);
        FutureStatus::Live
    });
    assert!(r.is_none());
    assert!(!asked.get());
}

#[test]
fn settle_once_after_cancellation_still_open() {
    let mut once = SettleOnce::new();
    assert!(once.settle(TaskEnd::Finished(Ok::<i32, &str>(1)), || FutureStatus::Cancelled).is_none());
    match once.settle(TaskEnd::<i32, &str>::Panicked, || FutureStatus::Live) {
        Some(Settlement::RejectPanic) => {}
        _ => panic!("expected RejectPanic"),
    }
}

#[test]
fn fire_with_hands_over_the_item() {
    let mut slot = OneShot::new(Some(10));
    assert_eq!(slot.fire_with(5, |s, t| s + t), Some(15));
    assert!(!slot.is_armed());
    let called = Cell::new(false);
    let r = slot.fire_with(5, |s: i32, t: i32| {
        called.set(true);
        s + t
    });
    assert_eq!(r, None);
    assert!(!called.get());
}
