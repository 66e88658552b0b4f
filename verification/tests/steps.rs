use std::cell::RefCell;

use pyo3_asyncio::steps::{
    call_items, close_with, completion_gate, lookup_running_loop, run_until_stopped, schedule_with,
    settle_with,
};

fn logger() -> RefCell<Vec<String>> {
    RefCell::new(Vec::new())
}

fn close_log(
    asyncgens: Result<(), &'static str>,
    has: Result<bool, &'static str>,
    executor: Result<(), &'static str>,
    close: Result<(), &'static str>,
) -> (Result<(), &'static str>, Vec<String>) {
    let log = logger();
    let r = close_with(
        || {
            log.borrow_mut().push("shutdown_asyncgens".to_string());
            asyncgens
        },
        || {
            log.borrow_mut().push("hasattr".to_string());
            has
        },
        || {
            log.borrow_mut().push("shutdown_default_executor".to_string());
            executor
        },
        || {
            log.borrow_mut().push("close".to_string());
            close
        },
    );
    (r, log.into_inner())
}

#[test]
fn close_runs_every_step_in_order() {
    let (r, log) = close_log(Ok(()), Ok(true), Ok(()), Ok(()));
    assert_eq!(r, Ok(()));
    assert_eq!(log, vec!["shutdown_asyncgens", "hasattr", "shutdown_default_executor", "close"]);
}

#[test]
fn close_skips_missing_executor_shutdown() {
    let (r, log) = close_log(Ok(()), Ok(false), Err("unused"), Ok(()));
    assert_eq!(r, Ok(()));
    assert_eq!(log, vec!["shutdown_asyncgens", "hasattr", "close"]);
}

#[test]
fn close_stops_at_first_error() {
    let (r, log) = close_log(Err("asyncgens"), Ok(true), Ok(()), Ok(()));
    assert_eq!(r, Err("asyncgens"));
    assert_eq!(log, vec!["shutdown_asyncgens"]);
    let (r, log) = close_log(Ok(()), Err("hasattr"), Ok(()), Ok(()));
    assert_eq!(r, Err("hasattr"));
    assert_eq!(log, vec!["shutdown_asyncgens", "hasattr"]);
    let (r, log) = close_log(Ok(()), Ok(true), Err("executor"), Ok(()));
    assert_eq!(r, Err("executor"));
    assert_eq!(log, vec!["shutdown_asyncgens", "hasattr", "shutdown_default_executor"]);
    let (r, _) = close_log(Ok(()), Ok(true), Ok(()), Err("close"));
    assert_eq!(r, Err("close"));
}

#[test]
fn interrupt_is_a_normal_stop() {
    assert_eq!(run_until_stopped(|| Ok::<u8, &str>(1), |_e: &&str| false), Ok(()));
    assert_eq!(
        run_until_stopped(|| Err::<u8, &str>("KeyboardInterrupt"), |e: &&str| *e == "KeyboardInterrupt"),
        Ok(())
    );
    assert_eq!(
        run_until_stopped(|| Err::<u8, &str>("SystemExit"), |e: &&str| *e == "KeyboardInterrupt"),
        Err("SystemExit")
    );
}

#[test]
fn running_loop_lookup_names() {
    let asked = RefCell::new(String::new());
    let r: Result<String, &str> = lookup_running_loop(
        || Ok(true),
        |name| {
            *asked.borrow_mut() = name.to_string();
            Ok(name)
        },
        |f: &str| Ok(format!("called {}", f)),
    );
    assert_eq!(r, Ok("called get_running_loop".to_string()));
    let r: Result<String, &str> =
        lookup_running_loop(|| Ok(false), |name| Ok(name), |f: &str| Ok(format!("called {}", f)));
    assert_eq!(r, Ok("called get_event_loop".to_string()));
    let r: Result<String, &str> =
        lookup_running_loop(|| Err("no attr"), |name| Ok(name), |f: &str| Ok(f.to_string()));
    assert_eq!(r, Err("no attr"));
    let r: Result<String, &str> =
        lookup_running_loop(|| Ok(true), |_name| Err::<&str, &str>("missing"), |f: &str| Ok(f.to_string()));
    assert_eq!(r, Err("missing"));
}

#[test]
fn settle_with_picks_the_method() {
    let scheduled = RefCell::new(Vec::new());
    let r = settle_with(
        Ok::<String, String>("v".to_string()),
        |name| Ok(name.to_string()),
        |e: String| format!("exc({})", e),
        |m: String, v: String| {
            scheduled.borrow_mut().push((m, v));
            Ok(())
        },
    );
    assert_eq!(r, Ok(()));
    let r = settle_with(
        Err::<String, String>("boom".to_string()),
        |name| Ok(name.to_string()),
        |e: String| format!("exc({})", e),
        |m: String, v: String| {
            scheduled.borrow_mut().push((m, v));
            Ok(())
        },
    );
    assert_eq!(r, Ok(()));
    assert_eq!(
        scheduled.into_inner(),
        vec![
            ("set_result".to_string(), "v".to_string()),
            ("set_exception".to_string(), "exc(boom)".to_string())
        ]
    );
}

#[test]
fn settle_with_lookup_error_schedules_nothing() {
    let scheduled = RefCell::new(0);
    let r = settle_with(
        Ok::<u8, &str>(1),
        |_name| Err::<u8, &str>("no attribute"),
        |_e: &str| 0u8,
        |_m: u8, _v: u8| {
            *scheduled.borrow_mut() += 1;
            Ok(())
        },
    );
    assert_eq!(r, Err("no attribute"));
    assert_eq!(scheduled.into_inner(), 0);
}

#[test]
fn completion_only_for_live_future() {
    assert_eq!(completion_gate::<&str, &str>(Ok(false), "set_result"), Ok(Some("set_result")));
    assert_eq!(completion_gate::<&str, &str>(Ok(true), "set_result"), Ok(None));
    assert_eq!(completion_gate::<&str, &str>(Err("broken"), "set_result"), Err("broken"));
}

#[test]
fn call_items_put_the_callback_first() {
    assert_eq!(call_items(0, vec![1, 2, 3]), vec![0, 1, 2, 3]);
    assert_eq!(call_items(9, Vec::new()), vec![9]);
}

#[test]
fn schedule_with_context_builds_kwargs() {
    let calls = RefCell::new(Vec::new());
    let r: Result<(), &str> = schedule_with(
        "cb",
        vec!["a", "b"],
        Some("ctx"),
        |cx: &str| Ok(format!("context={}", cx)),
        |items: Vec<&str>, kw: Option<String>| {
            calls.borrow_mut().push((items.join(","), kw));
            Ok(())
        },
    );
    assert_eq!(r, Ok(()));
    let r: Result<(), &str> = schedule_with(
        "cb",
        vec![],
        None,
        |cx: &str| Ok(format!("context={}", cx)),
        |items: Vec<&str>, kw: Option<String>| {
            calls.borrow_mut().push((items.join(","), kw));
            Ok(())
        },
    );
    assert_eq!(r, Ok(()));
    assert_eq!(
        calls.into_inner(),
        vec![("cb,a,b".to_string(), Some("context=ctx".to_string())), ("cb".to_string(), None)]
    );
}

#[test]
fn schedule_with_kwargs_error_calls_nothing() {
    let called = RefCell::new(false);
    let r: Result<(), &str> = schedule_with(
        "cb",
        vec![],
        Some("ctx"),
        |_cx: &str| Err::<String, &str>("dict"),
        |_items: Vec<&str>, _kw: Option<String>| {
            *called.borrow_mut() = true;
            Ok(())
        },
    );
    assert_eq!(r, Err("dict"));
    assert!(!called.into_inner());
}
