//! Working with Python's `asyncio` event loops: finding the current one, scheduling callbacks on
//! it, settling its futures, running and closing it.
//!
//! Each function here makes its Python calls through [`crate::python`]. What Python answers is not
//! known in advance; what is stated of each function is which calls it makes, on which objects and
//! with which arguments, in what order, and what it returns for every answer. The decisions taken
//! on the answers are public functions of their own with exact contracts.

use crate::bridge::FutureStatus;
use crate::steps::{
    close_with, completion_gate, lookup_running_loop, run_until_stopped, schedule_with, settle_with,
};
use crate::task_locals::TaskLocals;
use crate::python::{
    as_ref, attribute, borrowed, call0, call1, call_method, call_method0, called, called0,
    context_kwargs, error_from_value, error_value, exception_of, getattr, gil_of, has_attribute,
    hasattr, import, imported, is_keyboard_interrupt, is_true, keyboard_interrupt, kwargs_with_context,
    method_called, method_called0, owned, raised_by, to_object, truth,
};
use crate::steps::{loop_getter_name, settle_method_name};
use pyo3::types::PyDict;
use pyo3::{Py, PyAny, PyErr, Python};
use vstd::prelude::*;

verus! {

// ---------------------------------------------------------------------------------------------
// Decisions on what Python answered
// ---------------------------------------------------------------------------------------------

/// The `asyncio` function that gives the current event loop: `get_running_loop` where the module
/// has it (Python 3.7 and later), else `get_event_loop`.
pub fn running_loop_getter(has_get_running_loop: bool) -> (r: &'static str)
    ensures
        has_get_running_loop ==> r@ == "get_running_loop"@,
        !has_get_running_loop ==> r@ == "get_event_loop"@,
{
    if has_get_running_loop {
        "get_running_loop"
    } else {
        "get_event_loop"
    }
}

/// What an answer to `future.cancelled()` tells the bridge; a failed question counts as "not
/// cancelled".
pub fn status_of<E>(answer: &Result<bool, E>) -> (r: FutureStatus)
    ensures
        r == (match answer {
            Ok(true) => FutureStatus::Cancelled,
            Ok(false) => FutureStatus::Live,
            Err(_) => FutureStatus::Unknown,
        }),
{
    match answer {
        Ok(true) => FutureStatus::Cancelled,
        Ok(false) => FutureStatus::Live,
        Err(_) => FutureStatus::Unknown,
    }
}

/// The method of an `asyncio.Future` that settles it with a value (`set_result`) or with an error
/// (`set_exception`).
pub fn settle_method(is_value: bool) -> (r: &'static str)
    ensures
        is_value ==> r@ == "set_result"@,
        !is_value ==> r@ == "set_exception"@,
{
    if is_value {
        "set_result"
    } else {
        "set_exception"
    }
}

/// The outcome of running a future on a fresh event loop and closing the loop afterwards: the loop
/// is closed whatever the future gave, a failure to close it wins, otherwise the future's outcome
/// stands.
pub fn finish_run<T, E>(run: Result<T, E>, close: Result<(), E>) -> (r: Result<T, E>)
    ensures
        close matches Err(e) ==> r == Err::<T, E>(e),
        close is Ok ==> r == run,
{
    match close {
        Err(e) => Err(e),
        Ok(()) => run,
    }
}

// ---------------------------------------------------------------------------------------------
// What the Python calls give
// ---------------------------------------------------------------------------------------------

/// `Ok(())` for any object that a call answered, the error as it is.
pub open spec fn unit_of<'py>(answer: Result<&'py PyAny, PyErr>) -> Result<(), PyErr> {
    match answer {
        Ok(_) => Ok(()),
        Err(e) => Err(e),
    }
}

/// `r` is what `asyncio.get_running_loop()` (or `asyncio.get_event_loop()` where the module has
/// no `get_running_loop`) answered, with `asyncio` the module: asked for afresh, nothing kept.
pub open spec fn running_loop_answer<'py>(asyncio: &'py PyAny, r: Result<&'py PyAny, PyErr>) -> bool {
    exists|h: Result<bool, PyErr>|
        #[trigger] has_attribute(asyncio, "get_running_loop", h) && match h {
            Err(e) => r == Err::<&'py PyAny, PyErr>(e),
            Ok(b) => exists|name: &str, g: Result<&'py PyAny, PyErr>|
                name@ == loop_getter_name(b) && #[trigger] attribute(asyncio, name, g) && match g {
                    Err(e) => r == Err::<&'py PyAny, PyErr>(e),
                    Ok(getter) => called0(getter, r),
                },
        }
}

/// `r` is what scheduling a call of `items[0](*items[1..])` on the event loop gave:
/// `event_loop.call_soon_threadsafe(*items)`, with `context=cx` where a context `cx` is given; the
/// error of building those keyword arguments is returned without scheduling anything.
pub open spec fn scheduled<'py>(
    event_loop: &'py PyAny,
    context: Option<&'py PyAny>,
    items: Seq<&'py PyAny>,
    r: Result<(), PyErr>,
) -> bool {
    match context {
        None => exists|o: Result<&'py PyAny, PyErr>|
            #[trigger] method_called(event_loop, "call_soon_threadsafe", items, None, o) && r
                == unit_of(o),
        Some(cx) => exists|k: Result<&'py PyDict, PyErr>|
            #[trigger] kwargs_with_context(cx, k) && match k {
                Err(e) => r == Err::<(), PyErr>(e),
                Ok(kw) => exists|o: Result<&'py PyAny, PyErr>|
                    #[trigger] method_called(event_loop, "call_soon_threadsafe", items, Some(kw), o)
                        && r == unit_of(o),
            },
    }
}

/// `r` is what `future.cancelled()` answered: the method is read, called, and its answer's truth
/// taken.
pub open spec fn cancelled_answer<'py>(future: &'py PyAny, r: Result<bool, PyErr>) -> bool {
    exists|m: Result<&'py PyAny, PyErr>|
        #[trigger] attribute(future, "cancelled", m) && match m {
            Err(e) => r == Err::<bool, PyErr>(e),
            Ok(method) => exists|c: Result<&'py PyAny, PyErr>|
                #[trigger] called0(method, c) && match c {
                    Err(e) => r == Err::<bool, PyErr>(e),
                    Ok(answer) => truth(answer, r),
                },
        }
}

/// `r` is what `event_loop.run_until_complete(awaitable)` gave, its value dropped.
pub open spec fn ran_until_complete<'py>(
    event_loop: &'py PyAny,
    awaitable: &'py PyAny,
    r: Result<(), PyErr>,
) -> bool {
    exists|o: Result<&'py PyAny, PyErr>|
        #[trigger] method_called(event_loop, "run_until_complete", seq![awaitable], None, o) && r
            == unit_of(o)
}

/// `r` is what running `event_loop.name()` to completion on the event loop gave: the method's error,
/// or the outcome of `run_until_complete` on what it returned.
pub open spec fn ran_method<'py>(event_loop: &'py PyAny, name: &str, r: Result<(), PyErr>) -> bool {
    exists|c: Result<&'py PyAny, PyErr>|
        #[trigger] method_called0(event_loop, name, c) && match c {
            Err(e) => r == Err::<(), PyErr>(e),
            Ok(awaitable) => ran_until_complete(event_loop, awaitable, r),
        }
}

/// `r` is what `event_loop.close()` gave.
pub open spec fn close_answer<'py>(event_loop: &'py PyAny, r: Result<(), PyErr>) -> bool {
    exists|o: Result<&'py PyAny, PyErr>|
        #[trigger] method_called0(event_loop, "close", o) && r == unit_of(o)
}

/// `r` is what shutting the event loop down gave, in this order: `shutdown_asyncgens` run to
/// completion; then, only where `hasattr(event_loop, "shutdown_default_executor")` answers
/// `True`, `shutdown_default_executor` run to completion; then `close()`. The first error is
/// returned and no later step is taken.
pub open spec fn closed<'py>(event_loop: &'py PyAny, r: Result<(), PyErr>) -> bool {
    exists|a: Result<(), PyErr>|
        #[trigger] ran_method(event_loop, "shutdown_asyncgens", a) && match a {
            Err(e) => r == Err::<(), PyErr>(e),
            Ok(_) => exists|h: Result<bool, PyErr>|
                #[trigger] has_attribute(event_loop, "shutdown_default_executor", h) && match h {
                    Err(e) => r == Err::<(), PyErr>(e),
                    Ok(true) => exists|x: Result<(), PyErr>|
                        #[trigger] ran_method(event_loop, "shutdown_default_executor", x) && match x {
                            Err(e) => r == Err::<(), PyErr>(e),
                            Ok(_) => close_answer(event_loop, r),
                        },
                    Ok(false) => close_answer(event_loop, r),
                },
        }
}

// ---------------------------------------------------------------------------------------------
// Python calls
// ---------------------------------------------------------------------------------------------

/// The `asyncio` module.
pub fn asyncio<'py>(py: Python<'py>) -> (r: Result<&'py PyAny, PyErr>)
    ensures
        imported("asyncio", r),
{
    import(py, "asyncio")
}

/// A new event loop, from `asyncio.new_event_loop()`.
pub fn new_event_loop<'py>(py: Python<'py>) -> (r: Result<&'py PyAny, PyErr>)
    ensures
        exists|m: Result<&'py PyAny, PyErr>|
            #[trigger] imported("asyncio", m) && match m {
                Err(e) => r == Err::<&'py PyAny, PyErr>(e),
                Ok(module) => method_called0(module, "new_event_loop", r),
            },
{
    call_method0(asyncio(py)?, "new_event_loop")
}

/// Wraps the awaitable in an `asyncio` task or future (`asyncio.ensure_future(awaitable)`).
pub fn ensure_future<'py>(py: Python<'py>, awaitable: &'py PyAny) -> (r: Result<&'py PyAny, PyErr>)
    ensures
        exists|m: Result<&'py PyAny, PyErr>|
            #[trigger] imported("asyncio", m) && match m {
                Err(e) => r == Err::<&'py PyAny, PyErr>(e),
                Ok(module) => exists|f: Result<&'py PyAny, PyErr>|
                    #[trigger] attribute(module, "ensure_future", f) && match f {
                        Err(e) => r == Err::<&'py PyAny, PyErr>(e),
                        Ok(ensure) => called(ensure, seq![awaitable], r),
                    },
            },
{
    let ensure = getattr(asyncio(py)?, "ensure_future")?;
    let mut args: Vec<&'py PyAny> = Vec::new();
    args.push(awaitable);
    call1(ensure, args)
}

/// Creates a new `asyncio.Future` attached to the event loop (`event_loop.create_future()`).
pub fn create_future<'py>(event_loop: &'py PyAny) -> (r: Result<&'py PyAny, PyErr>)
    ensures
        method_called0(event_loop, "create_future", r),
{
    call_method0(event_loop, "create_future")
}

/// The event loop of the current OS thread: `asyncio.get_running_loop()`, or on Python 3.6
/// `asyncio.get_event_loop()`, which has slightly different behaviour. The loop is asked for on
/// every call (the steps are those of [`lookup_running_loop`]).
pub fn get_running_loop<'py>(py: Python<'py>) -> (r: Result<&'py PyAny, PyErr>)
    ensures
        exists|m: Result<&'py PyAny, PyErr>|
            #[trigger] imported("asyncio", m) && match m {
                Err(e) => r == Err::<&'py PyAny, PyErr>(e),
                Ok(module) => running_loop_answer(module, r),
            },
{
    let asyncio = asyncio(py)?;
    let probe = || -> (h: Result<bool, PyErr>)
        ensures
            has_attribute(asyncio, "get_running_loop", h),
    {
        hasattr(asyncio, "get_running_loop")
    };
    let lookup = |name: &'static str| -> (g: Result<&'py PyAny, PyErr>)
        ensures
            attribute(asyncio, name, g),
    {
        getattr(asyncio, name)
    };
    let call = |getter: &'py PyAny| -> (c: Result<&'py PyAny, PyErr>)
        ensures
            called0(getter, c),
    {
        call0(getter)
    };
    lookup_running_loop(probe, lookup, call)
}

/// The `contextvars` module, or `None` where it cannot be imported (Python 3.6).
pub fn contextvars<'py>(py: Python<'py>) -> (r: Option<&'py PyAny>)
    ensures
        exists|m: Result<&'py PyAny, PyErr>|
            #[trigger] imported("contextvars", m) && r == (match m {
                Ok(module) => Some(module),
                Err(_) => None::<&'py PyAny>,
            }),
{
    match import(py, "contextvars") {
        Ok(module) => Some(module),
        Err(_) => None,
    }
}

/// A copy of the current `contextvars` context (`contextvars.copy_context()`), or `None` where
/// `contextvars` cannot be imported.
pub fn copy_context<'py>(py: Python<'py>) -> (r: Result<Option<&'py PyAny>, PyErr>)
    ensures
        exists|m: Result<&'py PyAny, PyErr>|
            #[trigger] imported("contextvars", m) && match m {
                Err(_) => r == Ok::<Option<&'py PyAny>, PyErr>(None),
                Ok(module) => exists|c: Result<&'py PyAny, PyErr>|
                    #[trigger] method_called0(module, "copy_context", c) && r == (match c {
                        Ok(cx) => Ok(Some(cx)),
                        Err(e) => Err::<Option<&'py PyAny>, PyErr>(e),
                    }),
            },
{
    match contextvars(py) {
        Some(module) => Ok(Some(call_method0(module, "copy_context")?)),
        None => Ok(None),
    }
}

/// Schedules `callback(*args)` on the event loop from any thread, in the given `contextvars`
/// context if there is one (the steps are those of [`schedule_with`]).
pub fn call_soon_threadsafe<'py>(
    event_loop: &'py PyAny,
    context: Option<&'py PyAny>,
    callback: &'py PyAny,
    args: Vec<&'py PyAny>,
) -> (r: Result<(), PyErr>)
    ensures
        scheduled(event_loop, context, seq![callback] + args@, r),
{
    let py = gil_of(event_loop);
    let make_kwargs = |cx: &'py PyAny| -> (k: Result<&'py PyDict, PyErr>)
        ensures
            kwargs_with_context(cx, k),
    {
        context_kwargs(py, cx)
    };
    let call = |items: Vec<&'py PyAny>, kwargs: Option<&'py PyDict>| -> (c: Result<(), PyErr>)
        ensures
            exists|o: Result<&'py PyAny, PyErr>|
                #[trigger] method_called(event_loop, "call_soon_threadsafe", items@, kwargs, o) && c
                    == unit_of(o),
    {
        match call_method(event_loop, "call_soon_threadsafe", items, kwargs) {
            Ok(_) => Ok(()),
            Err(e) => Err(e),
        }
    };
    schedule_with(callback, args, context, make_kwargs, call)
}

/// Schedules `callback()` once on the task's event loop, in the task's `contextvars` context
/// (`event_loop.call_soon_threadsafe(callback, context=context)`); the event loop and context
/// handed over are those of [`TaskLocals::with_loop_and_context`].
pub fn call_soon_with_locals(locals: &TaskLocals, py: Python<'_>, callback: &PyAny) -> (r: Result<(), PyErr>)
    ensures
        exists|event_loop: &PyAny, context: &PyAny|
            #![trigger borrowed(&locals.event_loop, event_loop), borrowed(&locals.context, context)]
            borrowed(&locals.event_loop, event_loop) && borrowed(&locals.context, context)
                && scheduled(event_loop, Some(context), seq![callback], r),
{
    let call = |event_loop: &Py<PyAny>, context: &Py<PyAny>| -> (c: Result<(), PyErr>)
        ensures
            exists|el: &PyAny, cx: &PyAny|
                #![trigger borrowed(event_loop, el), borrowed(context, cx)]
                borrowed(event_loop, el) && borrowed(context, cx) && scheduled(
                    el,
                    Some(cx),
                    seq![callback],
                    c,
                ),
    {
        let el = as_ref(event_loop, py);
        let cx = as_ref(context, py);
        let args: Vec<&PyAny> = Vec::new();
        let c = call_soon_threadsafe(el, Some(cx), callback, args);
        assert(seq![callback] + args@ =~= seq![callback]);
        c
    };
    locals.with_loop_and_context(call)
}

/// Asks the `asyncio.Future` to call `callback(future)` once it is done
/// (`future.add_done_callback(callback)`).
pub fn add_done_callback(future: &PyAny, callback: &PyAny) -> (r: Result<(), PyErr>)
    ensures
        exists|o: Result<&PyAny, PyErr>|
            #[trigger] method_called(future, "add_done_callback", seq![callback], None, o) && r
                == unit_of(o),
{
    let mut args: Vec<&PyAny> = Vec::new();
    args.push(callback);
    match call_method(future, "add_done_callback", args, None) {
        Ok(_) => Ok(()),
        Err(e) => Err(e),
    }
}

/// Whether the `asyncio.Future` was cancelled (`future.cancelled()`).
pub fn cancelled(future: &PyAny) -> (r: Result<bool, PyErr>)
    ensures
        cancelled_answer(future, r),
{
    let method = getattr(future, "cancelled")?;
    is_true(call0(method)?)
}

/// Completes the `asyncio.Future` with `complete(value)` unless it was cancelled meanwhile: asks
/// `future.cancelled()` first, and calls `complete` only on the answer `False`; the completion is
/// handed out only by [`completion_gate`].
///
/// Meant to run on the event loop's thread (scheduled by [`set_result`]), where no cancellation
/// can come between the check and the completion.
pub fn complete_unless_cancelled<'py>(
    future: &'py PyAny,
    complete: &'py PyAny,
    value: &'py PyAny,
) -> (r: Result<(), PyErr>)
    ensures
        exists|c: Result<bool, PyErr>|
            #[trigger] cancelled_answer(future, c) && cancelled.ensures((future,), c) && match c {
                Err(e) => r == Err::<(), PyErr>(e),
                Ok(true) => r == Ok::<(), PyErr>(()),
                Ok(false) => exists|o: Result<&'py PyAny, PyErr>|
                    #[trigger] called(complete, seq![value], o) && r == unit_of(o),
            },
{
    let answer = cancelled(future);
    match completion_gate(answer, complete)? {
        Some(method) => {
            let mut args: Vec<&'py PyAny> = Vec::new();
            args.push(value);
            match call1(method, args) {
                Ok(_) => Ok(()),
                Err(e) => Err(e),
            }
        },
        None => Ok(()),
    }
}

/// Settles the `asyncio.Future` from any thread, with the value or with the error's exception
/// (the steps are those of [`settle_with`]): reads the future's `set_result` or `set_exception`
/// method and schedules `completor(future, method, value)` on the event loop. The completor is
/// expected to call [`complete_unless_cancelled`], so that a future cancelled meanwhile is left
/// as it is.
pub fn set_result<'py>(
    event_loop: &'py PyAny,
    future: &'py PyAny,
    result: Result<&'py PyAny, PyErr>,
    completor: &'py PyAny,
) -> (r: Result<(), PyErr>)
    ensures
        exists|name: &str, m: Result<&'py PyAny, PyErr>|
            name@ == settle_method_name(result is Ok) && #[trigger] attribute(future, name, m)
                && match m {
                Err(e) => r == Err::<(), PyErr>(e),
                Ok(method) => match result {
                    Ok(v) => scheduled(event_loop, None, seq![completor, future, method, v], r),
                    Err(x) => exists|v: &'py PyAny|
                        #![trigger exception_of(x, v)]
                        exception_of(x, v) && scheduled(
                            event_loop,
                            None,
                            seq![completor, future, method, v],
                            r,
                        ),
                },
            },
{
    let py = gil_of(event_loop);
    let lookup = |name: &'static str| -> (g: Result<&'py PyAny, PyErr>)
        ensures
            attribute(future, name, g),
    {
        getattr(future, name)
    };
    let to_value = |err: PyErr| -> (v: &'py PyAny)
        ensures
            exception_of(err, v),
    {
        error_value(py, err)
    };
    let schedule = |method: &'py PyAny, value: &'py PyAny| -> (c: Result<(), PyErr>)
        ensures
            scheduled(event_loop, None, seq![completor, future, method, value], c),
    {
        let mut args: Vec<&'py PyAny> = Vec::new();
        args.push(future);
        args.push(method);
        args.push(value);
        let c = call_soon_threadsafe(event_loop, None, completor, args);
        assert(seq![completor] + args@ =~= seq![completor, future, method, value]);
        c
    };
    settle_with(result, lookup, to_value, schedule)
}

/// The result of a finished task (`task.result()`): its value, or the error it raised.
pub fn task_result(task: &PyAny) -> (r: Result<Py<PyAny>, PyErr>)
    ensures
        exists|o: Result<&PyAny, PyErr>|
            #[trigger] method_called0(task, "result", o) && match o {
                Err(e) => r == Err::<Py<PyAny>, PyErr>(e),
                Ok(value) => r matches Ok(v) && owned(value, v),
            },
{
    let value = call_method0(task, "result")?;
    Ok(to_object(value))
}

/// The `asyncio.CancelledError` that a cancelled awaitable yields on the Rust side: the error
/// raising `asyncio.CancelledError()`; when it cannot be built, the error that stopped it.
pub fn cancelled_error(py: Python<'_>) -> (r: PyErr)
    ensures
        exists|m: Result<&PyAny, PyErr>|
            #[trigger] imported("asyncio", m) && match m {
                Err(e) => r == e,
                Ok(module) => exists|c: Result<&PyAny, PyErr>|
                    #[trigger] method_called0(module, "CancelledError", c) && match c {
                        Ok(exc) => raised_by(exc, r),
                        Err(e) => r == e,
                    },
            },
{
    let module = match asyncio(py) {
        Ok(m) => m,
        Err(e) => {
            return e;
        },
    };
    match call_method0(module, "CancelledError") {
        Ok(exc) => error_from_value(exc),
        Err(e) => e,
    }
}

/// Runs the event loop until the awaitable is done (`event_loop.run_until_complete(awaitable)`);
/// that one call is all it makes.
pub fn run_until_complete_awaitable<'py>(event_loop: &'py PyAny, awaitable: &'py PyAny) -> (r: Result<
    (),
    PyErr,
>)
    ensures
        ran_until_complete(event_loop, awaitable, r),
{
    let mut args: Vec<&'py PyAny> = Vec::new();
    args.push(awaitable);
    match call_method(event_loop, "run_until_complete", args, None) {
        Ok(_) => Ok(()),
        Err(e) => Err(e),
    }
}

/// Runs the event loop until it is stopped (`event_loop.run_forever()`); a `KeyboardInterrupt`
/// counts as a normal stop (the steps are those of [`run_until_stopped`]).
pub fn run_forever(event_loop: &PyAny) -> (r: Result<(), PyErr>)
    ensures
        exists|o: Result<&PyAny, PyErr>|
            #[trigger] method_called0(event_loop, "run_forever", o) && match o {
                Ok(_) => r == Ok::<(), PyErr>(()),
                Err(e) => exists|b: bool|
                    #[trigger] keyboard_interrupt(&e, b) && r == (if b {
                        Ok(())
                    } else {
                        Err::<(), PyErr>(e)
                    }),
            },
{
    let py = gil_of(event_loop);
    let run = || -> (o: Result<&PyAny, PyErr>)
        ensures
            method_called0(event_loop, "run_forever", o),
    {
        call_method0(event_loop, "run_forever")
    };
    let is_interrupt = |err: &PyErr| -> (b: bool)
        ensures
            keyboard_interrupt(err, b),
    {
        is_keyboard_interrupt(py, err)
    };
    run_until_stopped(run, is_interrupt)
}

/// Shuts the event loop down: finishes its async generators, then its default executor where
/// the loop supports that (Python 3.9 and later), then closes it; the first error stops it (the
/// steps are those of [`close_with`]).
pub fn close(event_loop: &PyAny) -> (r: Result<(), PyErr>)
    ensures
        closed(event_loop, r),
{
    let shutdown_asyncgens = || -> (a: Result<(), PyErr>)
        ensures
            ran_method(event_loop, "shutdown_asyncgens", a),
    {
        match call_method0(event_loop, "shutdown_asyncgens") {
            Ok(asyncgens) => run_until_complete_awaitable(event_loop, asyncgens),
            Err(e) => Err(e),
        }
    };
    let has_executor_shutdown = || -> (h: Result<bool, PyErr>)
        ensures
            has_attribute(event_loop, "shutdown_default_executor", h),
    {
        hasattr(event_loop, "shutdown_default_executor")
    };
    let shutdown_executor = || -> (x: Result<(), PyErr>)
        ensures
            ran_method(event_loop, "shutdown_default_executor", x),
    {
        match call_method0(event_loop, "shutdown_default_executor") {
            Ok(executor) => run_until_complete_awaitable(event_loop, executor),
            Err(e) => Err(e),
        }
    };
    let close_loop = || -> (c: Result<(), PyErr>)
        ensures
            close_answer(event_loop, c),
    {
        match call_method0(event_loop, "close") {
            Ok(_) => Ok(()),
            Err(e) => Err(e),
        }
    };
    close_with(shutdown_asyncgens, has_executor_shutdown, shutdown_executor, close_loop)
}

} // verus!
