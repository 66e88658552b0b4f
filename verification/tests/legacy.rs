use pyo3::Python;
use std::cell::RefCell;

use pyo3_asyncio::legacy::{with_setup, LegacyRuntime, EXPECT_INIT};

#[test]
fn try_init_once_then_close() {
    Python::with_gil(|py| {
        let asyncio = py.import("asyncio").unwrap();
        let fresh = asyncio.call_method0("new_event_loop").unwrap();
        asyncio.call_method1("set_event_loop", (fresh,)).unwrap();

        let mut rt = LegacyRuntime::new();
        assert!(!rt.is_initialized());
        assert!(rt.event_loop().is_none());
        assert!(rt.try_close(py).is_ok());

        rt.try_init(py).unwrap();
        assert!(rt.is_initialized());
        let first = rt.event_loop().unwrap();
        assert!(first.as_ref(py).is(fresh));

        // a second call returns Ok(()) and does nothing
        rt.try_init(py).unwrap();
        let second = rt.event_loop().unwrap();
        assert!(second.as_ref(py).is(first.as_ref(py)));

        rt.try_close(py).unwrap();
        let closed: bool = fresh.call_method0("is_closed").unwrap().extract().unwrap();
        assert!(closed);
        asyncio.call_method1("set_event_loop", (py.None(),)).unwrap();
    });
}

#[test]
fn uninitialized_message() {
    assert_eq!(EXPECT_INIT, "PyO3 Asyncio has not been initialized");
}

#[test]
fn with_setup_always_finishes_after_setup() {
    let log = RefCell::new(Vec::new());
    let r: Result<u8, &str> = with_setup(
        || {
            log.borrow_mut().push("setup");
            Ok(())
        },
        || {
            log.borrow_mut().push("body");
            Err("body failed")
        },
        || {
            log.borrow_mut().push("finish");
            Ok(())
        },
    );
    assert_eq!(r, Err("body failed"));
    assert_eq!(log.borrow().clone(), vec!["setup", "body", "finish"]);
    let r: Result<u8, &str> = with_setup(|| Ok(()), || Ok(7), || Err("finish failed"));
    assert_eq!(r, Err("finish failed"));
    let r: Result<u8, &str> = with_setup(|| Err("setup failed"), || Ok(7), || Ok(()));
    assert_eq!(r, Err("setup failed"));
    let r: Result<u8, &str> = with_setup(|| Ok(()), || Ok(7), || Ok(()));
    assert_eq!(r, Ok(7));
}

#[test]
fn try_init_with_caches_loop_then_executor() {
    Python::with_gil(|py| {
        let asyncio = py.import("asyncio").unwrap();
        let lp = asyncio.call_method0("new_event_loop").unwrap();
        let ex = py.eval("object()", None, None).unwrap();
        let mut rt = LegacyRuntime::new();
        let r: Result<(), pyo3::PyErr> = rt.try_init_with(
            || Ok(lp.into()),
            || Ok(ex.into()),
            |_l, _x| Ok(()),
        );
        assert!(r.is_ok());
        assert!(rt.event_loop().unwrap().as_ref(py).is(lp));
        let order = RefCell::new(Vec::new());
        let r: Result<(), &str> = rt.try_close_with(
            |x| {
                assert!(x.as_ref(py).is(ex));
                order.borrow_mut().push("shutdown");
                Ok(())
            },
            |l| {
                assert!(l.as_ref(py).is(lp));
                order.borrow_mut().push("close");
                Ok(())
            },
        );
        assert!(r.is_ok());
        assert_eq!(order.borrow().clone(), vec!["shutdown", "close"]);
        let r: Result<(), &str> = rt.try_close_with(|_x| Err("shutdown failed"), |_l| panic!("must not close"));
        assert_eq!(r, Err("shutdown failed"));
        lp.call_method0("close").unwrap();
    });
}

#[test]
fn failed_try_init_with_caches_nothing() {
    Python::with_gil(|py| {
        let lp = py.import("asyncio").unwrap().call_method0("new_event_loop").unwrap();
        let mut rt = LegacyRuntime::new();
        let r: Result<(), &str> = rt.try_init_with(|| Ok(lp.into()), || Err("no executor"), |_l, _x| Ok(()));
        assert_eq!(r, Err("no executor"));
        assert!(!rt.is_initialized());
        lp.call_method0("close").unwrap();
    });
}
