//! What each operation on an event loop asks of Python, stated for every input over the calls of
//! [`crate::python`] alone: which method is called on which object, with which arguments, and
//! how its answer becomes the result.

use crate::event_loop::{
    add_done_callback, call_soon_threadsafe, call_soon_with_locals, cancelled, close,
    complete_unless_cancelled, get_running_loop, run_until_complete_awaitable, set_result,
};
use crate::python::{
    attribute, borrowed, called, called0, exception_of, has_attribute, imported, kwargs_with_context,
    method_called, method_called0, truth,
};
use crate::legacy::{
    event_loop_answer, executor_answer, executor_installed, executor_shut_down, loop_closed,
};
use crate::python::owned;
use crate::task_locals::TaskLocals;
use pyo3::{Py, Python};
use pyo3::types::PyDict;
use pyo3::{PyAny, PyErr};
use vstd::prelude::*;

verus! {

/// A callback scheduled without a context goes through `event_loop.call_soon_threadsafe`, which
/// wakes the loop from any thread, with the callback first and then its arguments; the result is
/// `Ok(())` exactly when that call answered, and its error otherwise.
pub proof fn law_schedule_without_context_is_threadsafe<'py>(
    event_loop: &'py PyAny,
    callback: &'py PyAny,
    args: Vec<&'py PyAny>,
    r: Result<(), PyErr>,
)
    requires
        call_ensures(call_soon_threadsafe, (event_loop, None::<&'py PyAny>, callback, args), r),
    ensures
        exists|o: Result<&'py PyAny, PyErr>|
            #[trigger] method_called(
                event_loop,
                "call_soon_threadsafe",
                seq![callback].add(args@),
                None::<&'py PyDict>,
                o,
            ) && (o is Ok ==> r is Ok) && (o matches Err(e) ==> r == Err::<(), PyErr>(e)),
{
}

/// A callback scheduled in a context goes through `event_loop.call_soon_threadsafe` too, with
/// `context=cx` as keyword argument: the error of building the keyword arguments is the result,
/// and otherwise that one call's answer decides it as without a context.
pub proof fn law_schedule_in_context_is_threadsafe<'py>(
    event_loop: &'py PyAny,
    cx: &'py PyAny,
    callback: &'py PyAny,
    args: Vec<&'py PyAny>,
    r: Result<(), PyErr>,
)
    requires
        call_ensures(call_soon_threadsafe, (event_loop, Some(cx), callback, args), r),
    ensures
        exists|k: Result<&'py PyDict, PyErr>|
            #[trigger] kwargs_with_context(cx, k) && (k matches Err(e) ==> r == Err::<(), PyErr>(e))
                && (k matches Ok(kw) ==> exists|o: Result<&'py PyAny, PyErr>|
                #[trigger] method_called(
                    event_loop,
                    "call_soon_threadsafe",
                    seq![callback].add(args@),
                    Some(kw),
                    o,
                ) && (o is Ok ==> r is Ok) && (o matches Err(e) ==> r == Err::<(), PyErr>(e))),
{
}

/// Whether a future was cancelled is what its `cancelled` method answers when called, taken by
/// its truth; a failure to read or call the method is the result.
pub proof fn law_cancelled_asks_cancelled<'py>(future: &'py PyAny, r: Result<bool, PyErr>)
    requires
        call_ensures(cancelled, (future,), r),
    ensures
        exists|m: Result<&'py PyAny, PyErr>|
            #[trigger] attribute(future, "cancelled", m) && (m matches Err(e) ==> r == Err::<
                bool,
                PyErr,
            >(e)) && (m matches Ok(method) ==> exists|c: Result<&'py PyAny, PyErr>|
                #[trigger] called0(method, c) && (c matches Err(e) ==> r == Err::<bool, PyErr>(e))
                    && (c matches Ok(answer) ==> truth(answer, r))),
{
}

/// Closing an event loop first runs `event_loop.shutdown_asyncgens()` to completion with
/// `event_loop.run_until_complete`; a failure there is the result and ends the shutdown.
pub proof fn law_close_first_finishes_async_generators<'py>(
    event_loop: &'py PyAny,
    r: Result<(), PyErr>,
)
    requires
        call_ensures(close, (event_loop,), r),
    ensures
        exists|c: Result<&'py PyAny, PyErr>|
            #[trigger] method_called0(event_loop, "shutdown_asyncgens", c) && (c matches Err(e)
                ==> r == Err::<(), PyErr>(e)) && (c matches Ok(asyncgens) ==> exists|
                o: Result<&'py PyAny, PyErr>,
            |
                #[trigger] method_called(
                    event_loop,
                    "run_until_complete",
                    seq![asyncgens],
                    None::<&'py PyDict>,
                    o,
                ) && (o matches Err(e) ==> r == Err::<(), PyErr>(e))),
{
}

/// A successful close has called `event_loop.close()` and had it answer; before that, where the
/// loop has `shutdown_default_executor`, that coroutine was run to completion.
pub proof fn law_close_ends_with_close<'py>(event_loop: &'py PyAny, r: Result<(), PyErr>)
    requires
        call_ensures(close, (event_loop,), r),
        r is Ok,
    ensures
        exists|o: Result<&'py PyAny, PyErr>|
            #[trigger] method_called0(event_loop, "close", o) && o is Ok,
        exists|h: Result<bool, PyErr>|
            #[trigger] has_attribute(event_loop, "shutdown_default_executor", h) && (h
                == Ok::<bool, PyErr>(true) ==> exists|c: Result<&'py PyAny, PyErr>|
                #[trigger] method_called0(event_loop, "shutdown_default_executor", c) && (c matches Ok(
                    executor,
                ) && exists|o: Result<&'py PyAny, PyErr>|
                    #[trigger] method_called(
                        event_loop,
                        "run_until_complete",
                        seq![executor],
                        None::<&'py PyDict>,
                        o,
                    ) && o is Ok)),
{
}

/// Completing a future asks `future.cancelled()` (as [`cancelled`] does) before anything else: a
/// cancelled future is left alone with `Ok(())`, a live one gets `complete(value)`, and a failed
/// question is the result.
pub proof fn law_completion_asks_cancelled_first<'py>(
    future: &'py PyAny,
    complete: &'py PyAny,
    value: &'py PyAny,
    r: Result<(), PyErr>,
)
    requires
        call_ensures(complete_unless_cancelled, (future, complete, value), r),
    ensures
        exists|c: Result<bool, PyErr>|
            #[trigger] call_ensures(cancelled, (future,), c) && (c matches Err(e) ==> r == Err::<
                (),
                PyErr,
            >(e)) && (c == Ok::<bool, PyErr>(true) ==> r == Ok::<(), PyErr>(())) && (c == Ok::<
                bool,
                PyErr,
            >(false) ==> exists|o: Result<&'py PyAny, PyErr>|
                #[trigger] called(complete, seq![value], o) && (o is Ok ==> r is Ok) && (o matches Err(
                    e,
                ) ==> r == Err::<(), PyErr>(e))),
{
}

/// Settling a future with a value reads its `set_result` method and schedules
/// `completor(future, set_result, value)` through `event_loop.call_soon_threadsafe`; a failure to
/// read the method is the result.
pub proof fn law_value_is_settled_through_call_soon_threadsafe<'py>(
    event_loop: &'py PyAny,
    future: &'py PyAny,
    value: &'py PyAny,
    completor: &'py PyAny,
    r: Result<(), PyErr>,
)
    requires
        call_ensures(set_result, (event_loop, future, Ok::<&'py PyAny, PyErr>(value), completor), r),
    ensures
        exists|name: &str, m: Result<&'py PyAny, PyErr>|
            #![trigger attribute(future, name, m)]
            name@ == "set_result"@ && attribute(future, name, m) && (m matches Err(e) ==> r == Err::<
                (),
                PyErr,
            >(e)) && (m matches Ok(method) ==> exists|
                items: Seq<&'py PyAny>,
                o: Result<&'py PyAny, PyErr>,
            |
                #![trigger method_called(event_loop, "call_soon_threadsafe", items, None::<&'py PyDict>, o)]
                items == seq![completor, future, method, value] && method_called(
                    event_loop,
                    "call_soon_threadsafe",
                    items,
                    None::<&'py PyDict>,
                    o,
                ) && (o is Ok ==> r is Ok) && (o matches Err(e) ==> r == Err::<(), PyErr>(e))),
{
}

/// Settling a future with an error reads its `set_exception` method and schedules
/// `completor(future, set_exception, exception)` through `event_loop.call_soon_threadsafe`, with
/// the error's exception object; a failure to read the method is the result.
pub proof fn law_error_is_settled_through_call_soon_threadsafe<'py>(
    event_loop: &'py PyAny,
    future: &'py PyAny,
    error: PyErr,
    completor: &'py PyAny,
    r: Result<(), PyErr>,
)
    requires
        call_ensures(set_result, (event_loop, future, Err::<&'py PyAny, PyErr>(error), completor), r),
    ensures
        exists|name: &str, m: Result<&'py PyAny, PyErr>|
            #![trigger attribute(future, name, m)]
            name@ == "set_exception"@ && attribute(future, name, m) && (m matches Err(e) ==> r
                == Err::<(), PyErr>(e)) && (m matches Ok(method) ==> exists|
                exception: &'py PyAny,
                items: Seq<&'py PyAny>,
                o: Result<&'py PyAny, PyErr>,
            |
                #![trigger exception_of(error, exception), method_called(event_loop, "call_soon_threadsafe", items, None::<&'py PyDict>, o)]
                exception_of(error, exception) && items == seq![completor, future, method, exception]
                    && method_called(event_loop, "call_soon_threadsafe", items, None::<&'py PyDict>, o)
                    && (o is Ok ==> r is Ok) && (o matches Err(e) ==> r == Err::<(), PyErr>(e))),
{
}

/// Scheduling with the task locals borrows their event loop and context and makes one call
/// `event_loop.call_soon_threadsafe(callback, context=context)`.
pub proof fn law_locals_schedule_threadsafe_in_their_context<'py>(
    locals: &'py TaskLocals,
    py: Python<'py>,
    callback: &'py PyAny,
    r: Result<(), PyErr>,
)
    requires
        call_ensures(call_soon_with_locals, (locals, py, callback), r),
    ensures
        exists|event_loop: &PyAny, cx: &PyAny, k: Result<&PyDict, PyErr>|
            #![trigger borrowed(&locals.event_loop, event_loop), borrowed(&locals.context, cx), kwargs_with_context(cx, k)]
            borrowed(&locals.event_loop, event_loop) && borrowed(&locals.context, cx)
                && kwargs_with_context(cx, k) && (k matches Err(e) ==> r == Err::<(), PyErr>(e)) && (
            k matches Ok(kw) ==> exists|o: Result<&PyAny, PyErr>|
                #[trigger] method_called(event_loop, "call_soon_threadsafe", seq![callback], Some(kw), o)
                    && (o is Ok ==> r is Ok) && (o matches Err(e) ==> r == Err::<(), PyErr>(e))),
{
}

/// The running loop is what the module `asyncio` gives on this call: where it has
/// `get_running_loop`, what calling that function answers; otherwise what calling
/// `get_event_loop` answers. Each failure on the way is the result.
pub proof fn law_running_loop_is_asked_of_asyncio<'py>(py: Python<'py>, r: Result<&'py PyAny, PyErr>)
    requires
        call_ensures(get_running_loop, (py,), r),
    ensures
        exists|m: Result<&'py PyAny, PyErr>|
            #[trigger] imported("asyncio", m) && (m matches Err(e) ==> r == Err::<&'py PyAny, PyErr>(e))
                && (m matches Ok(module) ==> exists|h: Result<bool, PyErr>|
                #[trigger] has_attribute(module, "get_running_loop", h) && (h matches Err(e) ==> r
                    == Err::<&'py PyAny, PyErr>(e)) && (h matches Ok(b) ==> exists|
                    name: &str,
                    g: Result<&'py PyAny, PyErr>,
                |
                    #![trigger attribute(module, name, g)]
                    (b ==> name@ == "get_running_loop"@) && (!b ==> name@ == "get_event_loop"@)
                        && attribute(module, name, g) && (g matches Err(e) ==> r == Err::<
                        &'py PyAny,
                        PyErr,
                    >(e)) && (g matches Ok(getter) ==> called0(getter, r)))),
{
}

/// Running until an awaitable is done is one call `event_loop.run_until_complete(awaitable)`,
/// whose answer decides the result.
pub proof fn law_run_until_complete_is_one_call<'py>(
    event_loop: &'py PyAny,
    awaitable: &'py PyAny,
    r: Result<(), PyErr>,
)
    requires
        call_ensures(run_until_complete_awaitable, (event_loop, awaitable), r),
    ensures
        exists|o: Result<&'py PyAny, PyErr>|
            #[trigger] method_called(
                event_loop,
                "run_until_complete",
                seq![awaitable],
                None::<&'py PyDict>,
                o,
            ) && (o is Ok ==> r is Ok) && (o matches Err(e) ==> r == Err::<(), PyErr>(e)),
{
}

/// Registering a done callback is one call `future.add_done_callback(callback)`, whose answer
/// decides the result.
pub proof fn law_done_callback_is_one_call<'py>(
    future: &'py PyAny,
    callback: &'py PyAny,
    r: Result<(), PyErr>,
)
    requires
        call_ensures(add_done_callback, (future, callback), r),
    ensures
        exists|o: Result<&'py PyAny, PyErr>|
            #[trigger] method_called(
                future,
                "add_done_callback",
                seq![callback],
                None::<&'py PyDict>,
                o,
            ) && (o is Ok ==> r is Ok) && (o matches Err(e) ==> r == Err::<(), PyErr>(e)),
{
}

/// The event loop that initialization caches is an owned reference to what
/// `asyncio.get_event_loop()` answered.
pub proof fn law_cached_loop_is_asyncio_event_loop(r: Result<Py<PyAny>, PyErr>)
    requires
        event_loop_answer(r),
        r is Ok,
    ensures
        exists|module: &PyAny, event_loop: &PyAny|
            #![trigger method_called0(module, "get_event_loop", Ok::<&PyAny, PyErr>(event_loop))]
            imported("asyncio", Ok::<&PyAny, PyErr>(module)) && method_called0(
                module,
                "get_event_loop",
                Ok::<&PyAny, PyErr>(event_loop),
            ) && owned(event_loop, r->Ok_0),
{
}

/// The executor that initialization caches is an owned reference to a new
/// `concurrent.futures.thread.ThreadPoolExecutor()`.
pub proof fn law_cached_executor_is_a_thread_pool(r: Result<Py<PyAny>, PyErr>)
    requires
        executor_answer(r),
        r is Ok,
    ensures
        exists|module: &PyAny, executor: &PyAny|
            #![trigger method_called0(module, "ThreadPoolExecutor", Ok::<&PyAny, PyErr>(executor))]
            imported("concurrent.futures.thread", Ok::<&PyAny, PyErr>(module)) && method_called0(
                module,
                "ThreadPoolExecutor",
                Ok::<&PyAny, PyErr>(executor),
            ) && owned(executor, r->Ok_0),
{
}

/// Installing the executor is one call `event_loop.set_default_executor(executor)` on the objects
/// behind the two references, whose answer decides the result.
pub proof fn law_executor_becomes_the_default(
    event_loop: &Py<PyAny>,
    executor: &Py<PyAny>,
    r: Result<(), PyErr>,
)
    requires
        executor_installed(event_loop, executor, r),
    ensures
        exists|l: &PyAny, x: &PyAny, o: Result<&PyAny, PyErr>|
            #![trigger borrowed(event_loop, l), borrowed(executor, x), method_called(l, "set_default_executor", seq![x], None::<&PyDict>, o)]
            borrowed(event_loop, l) && borrowed(executor, x) && method_called(
                l,
                "set_default_executor",
                seq![x],
                None::<&PyDict>,
                o,
            ) && (o is Ok ==> r is Ok) && (o matches Err(e) ==> r == Err::<(), PyErr>(e)),
{
}

/// Finalization shuts the executor down with one call `executor.shutdown()`, whose answer decides
/// that step.
pub proof fn law_executor_is_shut_down(executor: &Py<PyAny>, r: Result<(), PyErr>)
    requires
        executor_shut_down(executor, r),
    ensures
        exists|x: &PyAny, o: Result<&PyAny, PyErr>|
            #![trigger borrowed(executor, x), method_called0(x, "shutdown", o)]
            borrowed(executor, x) && method_called0(x, "shutdown", o) && (o is Ok ==> r is Ok) && (
            o matches Err(e) ==> r == Err::<(), PyErr>(e)),
{
}

/// Finalization closes the cached event loop with [`close`] itself, so the laws on closing hold of
/// it.
pub proof fn law_cached_loop_is_closed_by_close(event_loop: &Py<PyAny>, r: Result<(), PyErr>)
    requires
        loop_closed(event_loop, r),
    ensures
        exists|l: &PyAny| #[trigger] borrowed(event_loop, l) && call_ensures(close, (l,), r),
{
}

} // verus!
