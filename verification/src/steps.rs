//! The steps of each `asyncio` operation, over the calls given as closures.
//!
//! What Python answers to a call cannot be known in advance, but which calls an operation makes,
//! in what order, with what arguments, and what it does with each answer can: each function here
//! takes the calls as closures and states, through their `ensures`, exactly what it hands to them
//! and what it returns for every answer. Each `requires` admits a later call only once the calls
//! before it have answered as the step needs, so a step after a failure cannot be taken. The
//! functions of [`crate::event_loop`] make the Python calls through these.

use crate::event_loop::{running_loop_getter, settle_method};
use vstd::prelude::*;

verus! {

/// The name of the `asyncio` function that gives the current event loop.
pub open spec fn loop_getter_name(has_get_running_loop: bool) -> Seq<char> {
    if has_get_running_loop {
        "get_running_loop"@
    } else {
        "get_event_loop"@
    }
}

/// The name of the `asyncio.Future` method that settles it with a value or with an error.
pub open spec fn settle_method_name(is_value: bool) -> Seq<char> {
    if is_value {
        "set_result"@
    } else {
        "set_exception"@
    }
}

/// Closes an event loop: `shutdown_asyncgens` (run to completion), then, only where
/// `has_executor_shutdown` answers `true`, `shutdown_default_executor` (run to completion), then
/// `close`. The first error ends the sequence and is returned; no later step is taken.
pub fn close_with<E, A, H, X, C>(
    shutdown_asyncgens: A,
    has_executor_shutdown: H,
    shutdown_executor: X,
    close_loop: C,
) -> (r: Result<(), E>) where
    A: FnOnce() -> Result<(), E>,
    H: FnOnce() -> Result<bool, E>,
    X: FnOnce() -> Result<(), E>,
    C: FnOnce() -> Result<(), E>,

    requires
        shutdown_asyncgens.requires(()),
        forall|a: Result<(), E>| #[trigger]
            shutdown_asyncgens.ensures((), a) && a is Ok ==> has_executor_shutdown.requires(()),
        forall|h: Result<bool, E>| #[trigger]
            has_executor_shutdown.ensures((), h) && h == Ok::<bool, E>(true)
                ==> shutdown_executor.requires(()),
        forall|h: Result<bool, E>| #[trigger]
            has_executor_shutdown.ensures((), h) && h == Ok::<bool, E>(false)
                ==> close_loop.requires(()),
        forall|x: Result<(), E>| #[trigger]
            shutdown_executor.ensures((), x) && x is Ok ==> close_loop.requires(()),
    ensures
        exists|a: Result<(), E>|
            #![trigger shutdown_asyncgens.ensures((), a)]
            shutdown_asyncgens.ensures((), a) && match a {
                Err(e) => r == Err::<(), E>(e),
                Ok(_) => exists|h: Result<bool, E>|
                    #![trigger has_executor_shutdown.ensures((), h)]
                    has_executor_shutdown.ensures((), h) && match h {
                        Err(e) => r == Err::<(), E>(e),
                        Ok(true) => exists|x: Result<(), E>|
                            #![trigger shutdown_executor.ensures((), x)]
                            shutdown_executor.ensures((), x) && match x {
                                Err(e) => r == Err::<(), E>(e),
                                Ok(_) => close_loop.ensures((), r),
                            },
                        Ok(false) => close_loop.ensures((), r),
                    },
            },
{
    shutdown_asyncgens()?;
    if has_executor_shutdown()? {
        shutdown_executor()?;
    }
    close_loop()
}

/// Runs an event loop until it stops: `run`'s error is asked whether it is a `KeyboardInterrupt`;
/// a normal stop or an interrupt gives `Ok(())`, any other error is returned.
pub fn run_until_stopped<V, E, R, I>(run: R, is_interrupt: I) -> (r: Result<(), E>) where
    R: FnOnce() -> Result<V, E>,
    I: FnOnce(&E) -> bool,

    requires
        run.requires(()),
        forall|o: Result<V, E>, e: &E| #[trigger]
            run.ensures((), o) && o == Err::<V, E>(*e) ==> #[trigger] is_interrupt.requires((e,)),
    ensures
        exists|o: Result<V, E>|
            #![trigger run.ensures((), o)]
            run.ensures((), o) && match o {
                Ok(_) => r == Ok::<(), E>(()),
                Err(e) => exists|b: bool|
                    #![trigger is_interrupt.ensures((&e,), b)]
                    is_interrupt.ensures((&e,), b) && r == (if b {
                        Ok(())
                    } else {
                        Err::<(), E>(e)
                    }),
            },
{
    match run() {
        Ok(_) => Ok(()),
        Err(e) => {
            if is_interrupt(&e) {
                Ok(())
            } else {
                Err(e)
            }
        },
    }
}

/// Finds the current event loop: asks whether `asyncio` has `get_running_loop`, looks up
/// `get_running_loop` if it has, else `get_event_loop`, and calls what it found. The first error
/// is returned.
pub fn lookup_running_loop<F, T, E, H, G, C>(probe: H, lookup: G, call: C) -> (r: Result<T, E>) where
    H: FnOnce() -> Result<bool, E>,
    G: FnOnce(&'static str) -> Result<F, E>,
    C: FnOnce(F) -> Result<T, E>,

    requires
        probe.requires(()),
        forall|h: Result<bool, E>, name: &'static str| #[trigger]
            probe.ensures((), h) && h is Ok ==> #[trigger] lookup.requires((name,)),
        forall|name: &'static str, g: Result<F, E>, f: F| #[trigger]
            lookup.ensures((name,), g) && g == Ok::<F, E>(f) ==> #[trigger] call.requires((f,)),
    ensures
        exists|h: Result<bool, E>|
            #![trigger probe.ensures((), h)]
            probe.ensures((), h) && match h {
                Err(e) => r == Err::<T, E>(e),
                Ok(b) => exists|name: &'static str, g: Result<F, E>|
                    #![trigger lookup.ensures((name,), g)]
                    name@ == loop_getter_name(b) && lookup.ensures((name,), g) && match g {
                        Err(e) => r == Err::<T, E>(e),
                        Ok(f) => call.ensures((f,), r),
                    },
            },
{
    let has_get_running_loop = probe()?;
    let name = running_loop_getter(has_get_running_loop);
    let found = lookup(name)?;
    call(found)
}

/// Settles a future: looks up `set_result` for a value or `set_exception` for an error, turns an
/// error into the exception object with `to_value`, and hands the method and the value to
/// `schedule`. The lookup's error is returned without scheduling anything.
pub fn settle_with<V, E, M, L, X, S>(result: Result<V, E>, lookup: L, to_value: X, schedule: S) -> (r:
    Result<(), E>) where
    L: FnOnce(&'static str) -> Result<M, E>,
    X: FnOnce(E) -> V,
    S: FnOnce(M, V) -> Result<(), E>,

    requires
        forall|name: &'static str| lookup.requires((name,)),
        forall|name: &'static str, m: Result<M, E>, e: E| #[trigger]
            lookup.ensures((name,), m) && m is Ok && result == Err::<V, E>(e)
                ==> #[trigger] to_value.requires((e,)),
        forall|name: &'static str, m: Result<M, E>, method: M, v: V| #[trigger]
            lookup.ensures((name,), m) && m == Ok::<M, E>(method) ==> #[trigger] schedule.requires(
                (method, v),
            ),
    ensures
        exists|name: &'static str, m: Result<M, E>|
            #![trigger lookup.ensures((name,), m)]
            name@ == settle_method_name(result is Ok) && lookup.ensures((name,), m) && match m {
                Err(e) => r == Err::<(), E>(e),
                Ok(method) => match result {
                    Ok(v) => schedule.ensures((method, v), r),
                    Err(x) => exists|v: V|
                        #![trigger to_value.ensures((x,), v)]
                        to_value.ensures((x,), v) && schedule.ensures((method, v), r),
                },
            },
{
    let name = settle_method(result.is_ok());
    let method = lookup(name)?;
    match result {
        Ok(v) => schedule(method, v),
        Err(x) => {
            let v = to_value(x);
            schedule(method, v)
        },
    }
}

/// The completion of a future, handed out only while the future is live: with the answer to
/// "was it cancelled?", a cancelled future gets nothing, a live one gets `complete`, and a failed
/// question is returned as the error.
pub fn completion_gate<C, E>(cancelled: Result<bool, E>, complete: C) -> (r: Result<Option<C>, E>)
    ensures
        cancelled matches Err(e) ==> r == Err::<Option<C>, E>(e),
        cancelled == Ok::<bool, E>(true) ==> r == Ok::<Option<C>, E>(None),
        cancelled == Ok::<bool, E>(false) ==> r == Ok::<Option<C>, E>(Some(complete)),
{
    match cancelled {
        Err(e) => Err(e),
        Ok(true) => Ok(None),
        Ok(false) => Ok(Some(complete)),
    }
}

/// The arguments of a scheduled call: the callback, then its own arguments.
pub fn call_items<T>(callback: T, args: Vec<T>) -> (r: Vec<T>)
    ensures
        r@ == seq![callback] + args@,
{
    let mut items: Vec<T> = Vec::new();
    items.push(callback);
    let mut rest = args;
    let ghost all = rest@;
    let mut tail: Vec<T> = Vec::new();
    // move the arguments over, keeping their order
    while rest.len() > 0
        invariant
            tail@ + rest@ == all,
            items@ == seq![callback],
        decreases rest.len(),
    {
        let a = rest.remove(0);
        tail.push(a);
        assert(tail@ + rest@ =~= all);
    }
    assert(tail@ =~= all);
    items.append(&mut tail);
    items
}

/// Schedules a call: builds its arguments with [`call_items`] and, where a context is given, the
/// keyword arguments with `make_kwargs`; the keyword arguments' error is returned without calling.
pub fn schedule_with<T, K, E, MK, CALL>(
    callback: T,
    args: Vec<T>,
    context: Option<T>,
    make_kwargs: MK,
    call: CALL,
) -> (r: Result<(), E>) where
    MK: FnOnce(T) -> Result<K, E>,
    CALL: FnOnce(Vec<T>, Option<K>) -> Result<(), E>,

    requires
        forall|t: T| make_kwargs.requires((t,)),
        context is None ==> forall|v: Vec<T>| call.requires((v, None::<K>)),
        forall|t: T, k: Result<K, E>, kw: K, v: Vec<T>| #[trigger]
            make_kwargs.ensures((t,), k) && k == Ok::<K, E>(kw) ==> #[trigger] call.requires(
                (v, Some(kw)),
            ),
    ensures
        context is None ==> exists|items: Vec<T>|
            #![trigger call.ensures((items, None::<K>), r)]
            items@ == seq![callback] + args@ && call.ensures((items, None::<K>), r),
        context matches Some(cx) ==> exists|k: Result<K, E>|
            #![trigger make_kwargs.ensures((cx,), k)]
            make_kwargs.ensures((cx,), k) && match k {
                Err(e) => r == Err::<(), E>(e),
                Ok(kw) => exists|items: Vec<T>|
                    #![trigger call.ensures((items, Some(kw)), r)]
                    items@ == seq![callback] + args@ && call.ensures((items, Some(kw)), r),
            },
{
    let items = call_items(callback, args);
    match context {
        None => call(items, None),
        Some(cx) => {
            let kw = make_kwargs(cx)?;
            call(items, Some(kw))
        },
    }
}

} // verus!
