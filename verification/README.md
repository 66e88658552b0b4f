# pyo3-asyncio (verified core)

Rust bindings for Python's asyncio: conversions between Rust futures and Python awaitables, and
management of the event loops on both sides.

The crate is split in two:

- `src/` is the library, verified with Verus. It holds the decisions the bindings take, each
  with an exact contract, and the calls into Python, each with a contract that says which calls
  it makes, on which objects, with which arguments, in what order, and what it returns for every
  answer (what Python answers is taken as it comes):
  - `bridge`: which event loop a task uses, how an `asyncio.Future` is settled (at most once) when
    the Rust future that stands behind it ends, when a cancellation from Python stops the Rust future, how a
    completion reaches its receiver exactly once;
  - `steps`: the steps of each `asyncio` operation over the calls given as closures: which calls
    are made, in what order, with what arguments, and what is returned for every answer
    (closing a loop, running it until it stops, finding the running loop, settling and
    completing a future, scheduling a call);
  - `event_loop`: the calls into `asyncio`, each made through the steps above and stated over
    the calls of `python`;
  - `task_locals`: the event loop and `contextvars` context carried into Rust tasks;
  - `legacy`: the once-initialized event loop of the 0.13 API;
  - `harness`: test selection and reporting for the custom test harness;
  - `attr_check`: validation of the functions tagged with the `main` attributes;
  - `python`: the pyo3 types and calls the library relies on, and one predicate per call that
    holds of exactly the answers that call can give.
- `app/` is ordinary Rust around it: the async runtimes (tokio, async-std, pyo3-async), the
  process-wide caches, the Python classes used as callbacks, command-line parsing and the
  attribute macro expansions.

`tests/` exercises the library, including through a live Python interpreter.
