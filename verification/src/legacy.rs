//! The event loop that the 0.13 API initializes once and keeps for every later conversion.

use crate::event_loop::{asyncio, close, closed, finish_run, unit_of};
use crate::python::{
    as_ref, borrowed, call_method, call_method0, import, imported, method_called, method_called0, owned,
    to_object,
};
use pyo3::{Py, PyAny, PyErr, Python};
use vstd::prelude::*;

verus! {

/// The message of the panic when the cached event loop is asked for before initialization.
pub const EXPECT_INIT: &'static str = "PyO3 Asyncio has not been initialized";

/// Runs `body` between `setup` and `finish`: nothing runs when `setup` fails; otherwise `finish`
/// runs whatever `body` gave, a failure to finish wins, and else `body`'s outcome stands.
pub fn with_setup<T, E, I, B, F>(setup: I, body: B, finish: F) -> (r: Result<T, E>) where
    I: FnOnce() -> Result<(), E>,
    B: FnOnce() -> Result<T, E>,
    F: FnOnce() -> Result<(), E>,

    requires
        setup.requires(()),
        forall|i: Result<(), E>| #[trigger]
            setup.ensures((), i) && i is Ok ==> body.requires(()) && finish.requires(()),
    ensures
        exists|i: Result<(), E>|
            #![trigger setup.ensures((), i)]
            setup.ensures((), i) && match i {
                Err(e) => r == Err::<T, E>(e),
                Ok(_) => exists|v: Result<T, E>, c: Result<(), E>|
                    #![trigger body.ensures((), v), finish.ensures((), c)]
                    body.ensures((), v) && finish.ensures((), c) && r == (match c {
                        Err(e) => Err::<T, E>(e),
                        Ok(_) => v,
                    }),
            },
{
    setup()?;
    let v = body();
    let c = finish();
    finish_run(v, c)
}

/// `r` is an owned reference to what `asyncio.get_event_loop()` answered, or the error of
/// importing `asyncio` or of the call.
pub open spec fn event_loop_answer(r: Result<Py<PyAny>, PyErr>) -> bool {
    exists|m: Result<&PyAny, PyErr>|
        #[trigger] imported("asyncio", m) && match m {
            Err(e) => r == Err::<Py<PyAny>, PyErr>(e),
            Ok(module) => exists|l: Result<&PyAny, PyErr>|
                #[trigger] method_called0(module, "get_event_loop", l) && match l {
                    Err(e) => r == Err::<Py<PyAny>, PyErr>(e),
                    Ok(event_loop) => r matches Ok(o) && owned(event_loop, o),
                },
        }
}

/// `r` is an owned reference to a new `concurrent.futures.thread.ThreadPoolExecutor()`, or the
/// error of importing the module or of the call.
pub open spec fn executor_answer(r: Result<Py<PyAny>, PyErr>) -> bool {
    exists|m: Result<&PyAny, PyErr>|
        #[trigger] imported("concurrent.futures.thread", m) && match m {
            Err(e) => r == Err::<Py<PyAny>, PyErr>(e),
            Ok(module) => exists|x: Result<&PyAny, PyErr>|
                #[trigger] method_called0(module, "ThreadPoolExecutor", x) && match x {
                    Err(e) => r == Err::<Py<PyAny>, PyErr>(e),
                    Ok(executor) => r matches Ok(o) && owned(executor, o),
                },
        }
}

/// `r` is what `event_loop.set_default_executor(executor)` gave, on the objects behind the two
/// owned references.
pub open spec fn executor_installed(event_loop: &Py<PyAny>, executor: &Py<PyAny>, r: Result<(), PyErr>) -> bool {
    exists|l: &PyAny, x: &PyAny|
        #![trigger borrowed(event_loop, l), borrowed(executor, x)]
        borrowed(event_loop, l) && borrowed(executor, x) && exists|o: Result<&PyAny, PyErr>|
            #[trigger] method_called(l, "set_default_executor", seq![x], None, o) && r == unit_of(o)
}

/// `r` is what `executor.shutdown()` gave, on the object behind the owned reference.
pub open spec fn executor_shut_down(executor: &Py<PyAny>, r: Result<(), PyErr>) -> bool {
    exists|x: &PyAny|
        #[trigger] borrowed(executor, x) && exists|o: Result<&PyAny, PyErr>|
            #[trigger] method_called0(x, "shutdown", o) && r == unit_of(o)
}

/// `r` is what closing the event loop behind the owned reference gave ([`closed`]).
pub open spec fn loop_closed(event_loop: &Py<PyAny>, r: Result<(), PyErr>) -> bool {
    exists|l: &PyAny| #[trigger] borrowed(event_loop, l) && close.ensures((l,), r) && closed(l, r)
}

/// The event loop and thread-pool executor cached by [`LegacyRuntime::try_init`].
#[derive(Clone)]
pub struct LegacyRuntime {
    cached: Option<(Py<PyAny>, Py<PyAny>)>,
}

impl LegacyRuntime {
    /// The cached event loop and executor, once initialized.
    pub closed spec fn cache(self) -> Option<(Py<PyAny>, Py<PyAny>)> {
        self.cached
    }

    /// Nothing cached yet.
    pub fn new() -> (r: Self)
        ensures
            r.cache() is None,
    {
        LegacyRuntime { cached: None }
    }

    /// Whether [`LegacyRuntime::try_init`] has succeeded.
    pub fn is_initialized(&self) -> (r: bool)
        ensures
            r == self.cache() is Some,
    {
        self.cached.is_some()
    }

    /// Initializes once: when nothing is cached, takes the event loop from `get_loop`, then the
    /// executor from `make_executor`, then hands both to `install`, and caches them as (event loop,
    /// executor) if all three succeed. The first error is returned and nothing is cached; when
    /// already initialized, nothing is called and `Ok(())` is returned.
    pub fn try_init_with<E, GL, MX, IN>(&mut self, get_loop: GL, make_executor: MX, install: IN) -> (r:
        Result<(), E>) where
        GL: FnOnce() -> Result<Py<PyAny>, E>,
        MX: FnOnce() -> Result<Py<PyAny>, E>,
        IN: FnOnce(&Py<PyAny>, &Py<PyAny>) -> Result<(), E>,

        requires
            old(self).cache() is None ==> get_loop.requires(()),
            forall|l: Result<Py<PyAny>, E>| #[trigger]
                get_loop.ensures((), l) && l is Ok ==> make_executor.requires(()),
            forall|x: Result<Py<PyAny>, E>, l: &Py<PyAny>, e: &Py<PyAny>| #[trigger]
                make_executor.ensures((), x) && x == Ok::<Py<PyAny>, E>(*e) ==> #[trigger] install.requires(
                    (l, e),
                ),
        ensures
            old(self).cache() is Some ==> r is Ok && *final(self) == *old(self),
            old(self).cache() is None ==> exists|l: Result<Py<PyAny>, E>|
                #![trigger get_loop.ensures((), l)]
                get_loop.ensures((), l) && match l {
                    Err(e) => r == Err::<(), E>(e) && *final(self) == *old(self),
                    Ok(event_loop) => exists|x: Result<Py<PyAny>, E>|
                        #![trigger make_executor.ensures((), x)]
                        make_executor.ensures((), x) && match x {
                            Err(e) => r == Err::<(), E>(e) && *final(self) == *old(self),
                            Ok(executor) => exists|i: Result<(), E>|
                                #![trigger install.ensures((&event_loop, &executor), i)]
                                install.ensures((&event_loop, &executor), i) && match i {
                                    Err(e) => r == Err::<(), E>(e) && *final(self) == *old(self),
                                    Ok(_) => r is Ok && final(self).cache() == Some(
                                        (event_loop, executor),
                                    ),
                                },
                        },
                },
    {
        if self.cached.is_some() {
            return Ok(());
        }
        let event_loop = get_loop()?;
        let executor = make_executor()?;
        install(&event_loop, &executor)?;
        self.cached = Some((event_loop, executor));
        Ok(())
    }

    /// Initializes the Python event loop once: takes `asyncio.get_event_loop()`, gives it a
    /// `concurrent.futures.thread.ThreadPoolExecutor()` as default executor
    /// (`set_default_executor`), and caches both; the steps are those of
    /// [`LegacyRuntime::try_init_with`].
    ///
    /// Calling it a second time returns `Ok(())` and does nothing; a failed attempt caches nothing.
    pub fn try_init(&mut self, py: Python<'_>) -> (r: Result<(), PyErr>)
        ensures
            old(self).cache() is Some ==> r is Ok && *final(self) == *old(self),
            old(self).cache() is None ==> exists|l: Result<Py<PyAny>, PyErr>|
                #[trigger] event_loop_answer(l) && match l {
                    Err(e) => r == Err::<(), PyErr>(e) && *final(self) == *old(self),
                    Ok(event_loop) => exists|x: Result<Py<PyAny>, PyErr>|
                        #[trigger] executor_answer(x) && match x {
                            Err(e) => r == Err::<(), PyErr>(e) && *final(self) == *old(self),
                            Ok(executor) => exists|i: Result<(), PyErr>|
                                #[trigger] executor_installed(&event_loop, &executor, i) && match i {
                                    Err(e) => r == Err::<(), PyErr>(e) && *final(self) == *old(self),
                                    Ok(_) => r is Ok && final(self).cache() == Some(
                                        (event_loop, executor),
                                    ),
                                },
                        },
                },
    {
        let get_loop = || -> (l: Result<Py<PyAny>, PyErr>)
            ensures
                event_loop_answer(l),
        {
            match asyncio(py) {
                Ok(module) => match call_method0(module, "get_event_loop") {
                    Ok(event_loop) => Ok(to_object(event_loop)),
                    Err(e) => Err(e),
                },
                Err(e) => Err(e),
            }
        };
        let make_executor = || -> (x: Result<Py<PyAny>, PyErr>)
            ensures
                executor_answer(x),
        {
            match import(py, "concurrent.futures.thread") {
                Ok(module) => match call_method0(module, "ThreadPoolExecutor") {
                    Ok(executor) => Ok(to_object(executor)),
                    Err(e) => Err(e),
                },
                Err(e) => Err(e),
            }
        };
        let install = |event_loop: &Py<PyAny>, executor: &Py<PyAny>| -> (i: Result<(), PyErr>)
            ensures
                executor_installed(event_loop, executor, i),
        {
            let l = as_ref(event_loop, py);
            let x = as_ref(executor, py);
            let mut args: Vec<&PyAny> = Vec::new();
            args.push(x);
            match call_method(l, "set_default_executor", args, None) {
                Ok(_) => Ok(()),
                Err(e) => Err(e),
            }
        };
        self.try_init_with(get_loop, make_executor, install)
    }

    /// The cached event loop, if initialized.
    pub fn event_loop(&self) -> (r: Option<Py<PyAny>>)
        ensures
            r == (match self.cache() {
                Some(c) => Some(c.0),
                None => None::<Py<PyAny>>,
            }),
    {
        match &self.cached {
            Some((event_loop, _)) => Some(event_loop.clone()),
            None => None,
        }
    }

    /// Finalizes: when initialized, hands the cached executor to `shutdown`, then, if that
    /// succeeded, the cached event loop to `close_loop`, whose outcome is returned; the shutdown's
    /// error is returned without closing. When uninitialized, nothing is called.
    pub fn try_close_with<E, SX, CL>(&self, shutdown: SX, close_loop: CL) -> (r: Result<(), E>) where
        SX: FnOnce(&Py<PyAny>) -> Result<(), E>,
        CL: FnOnce(&Py<PyAny>) -> Result<(), E>,

        requires
            forall|x: &Py<PyAny>| shutdown.requires((x,)),
            forall|x: &Py<PyAny>, s: Result<(), E>, l: &Py<PyAny>| #[trigger]
                shutdown.ensures((x,), s) && s is Ok ==> #[trigger] close_loop.requires((l,)),
        ensures
            self.cache() is None ==> r == Ok::<(), E>(()),
            self.cache() matches Some(c) ==> exists|s: Result<(), E>|
                #![trigger shutdown.ensures((&c.1,), s)]
                shutdown.ensures((&c.1,), s) && match s {
                    Err(e) => r == Err::<(), E>(e),
                    Ok(_) => close_loop.ensures((&c.0,), r),
                },
    {
        match &self.cached {
            Some((event_loop, executor)) => {
                shutdown(executor)?;
                close_loop(event_loop)
            },
            None => Ok(()),
        }
    }

    /// Shuts down the cached executor (`shutdown()`, waiting for its threads) and closes the
    /// cached event loop ([`close`]); does nothing when uninitialized. The steps are those of
    /// [`LegacyRuntime::try_close_with`].
    pub fn try_close(&self, py: Python<'_>) -> (r: Result<(), PyErr>)
        ensures
            self.cache() is None ==> r is Ok,
            self.cache() matches Some(c) ==> exists|s: Result<(), PyErr>|
                #[trigger] executor_shut_down(&c.1, s) && match s {
                    Err(e) => r == Err::<(), PyErr>(e),
                    Ok(_) => loop_closed(&c.0, r),
                },
    {
        let shutdown = |executor: &Py<PyAny>| -> (s: Result<(), PyErr>)
            ensures
                executor_shut_down(executor, s),
        {
            match call_method0(as_ref(executor, py), "shutdown") {
                Ok(_) => Ok(()),
                Err(e) => Err(e),
            }
        };
        let close_loop = |event_loop: &Py<PyAny>| -> (c: Result<(), PyErr>)
            ensures
                loop_closed(event_loop, c),
        {
            close(as_ref(event_loop, py))
        };
        self.try_close_with(shutdown, close_loop)
    }
}

} // verus!
