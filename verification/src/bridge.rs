//! Decisions of the bridge between a Rust future and the `asyncio.Future` that stands for it.
//!
//! The futures themselves run on an async runtime; every decision the bridge takes on what they
//! report (which event loop to use, how the Python future is settled, when a cancellation stops the
//! Rust future, how a completion reaches its receiver) is made, and proved, here.

use vstd::prelude::*;

verus! {

// ---------------------------------------------------------------------------------------------
// Choosing the event loop
// ---------------------------------------------------------------------------------------------

/// The event loop of the current task: the one stored in task-local data if there is one,
/// otherwise the one that `running_loop` finds for the current thread.
///
/// `running_loop` is called only when no task-local event loop is stored.
pub fn current_loop<T, E, F: FnOnce() -> Result<T, E>>(task_local: Option<T>, running_loop: F) -> (r:
    Result<T, E>)
    requires
        task_local is None ==> running_loop.requires(()),
    ensures
        task_local matches Some(l) ==> r == Ok::<T, E>(l),
        task_local is None ==> running_loop.ensures((), r),
{
    match task_local {
        Some(l) => Ok(l),
        None => running_loop(),
    }
}

// ---------------------------------------------------------------------------------------------
// Settling the Python future
// ---------------------------------------------------------------------------------------------

/// How the task that drives a Rust future ended.
pub enum TaskEnd<V, E> {
    /// The Rust future completed with this result.
    Finished(Result<V, E>),
    /// The task panicked before the future completed.
    Panicked,
    /// The task stopped for another reason (for instance the runtime dropped it).
    Aborted,
}

/// What asking the Python future whether it was cancelled answered.
#[derive(PartialEq, Eq, Structural)]
pub enum FutureStatus {
    /// It was cancelled.
    Cancelled,
    /// It was not cancelled.
    Live,
    /// The question failed; the bridge proceeds as if it was not cancelled.
    Unknown,
}

/// How the Python future gets settled.
pub enum Settlement<V, E> {
    /// `set_result` with the future's value.
    Resolve(V),
    /// `set_exception` with the future's error.
    Reject(E),
    /// `set_exception` with a `RustPanic` error.
    RejectPanic,
}

/// The settlement a task end calls for, before the cancellation check.
pub open spec fn settlement_of<V, E>(end: TaskEnd<V, E>) -> Option<Settlement<V, E>> {
    match end {
        TaskEnd::Finished(Ok(v)) => Some(Settlement::Resolve(v)),
        TaskEnd::Finished(Err(e)) => Some(Settlement::Reject(e)),
        TaskEnd::Panicked => Some(Settlement::RejectPanic),
        TaskEnd::Aborted => None,
    }
}

/// Decides how the Python future is settled once the driving task has ended.
///
/// A task that stopped without a result or a panic settles nothing. Otherwise `status` is asked
/// whether the Python future was cancelled meanwhile: a cancelled future is left alone, any other
/// gets the result, the error, or a `RustPanic`.
pub fn settle<V, E, C: FnOnce() -> FutureStatus>(end: TaskEnd<V, E>, status: C) -> (r: Option<
    Settlement<V, E>>)
    requires
        settlement_of(end) is Some ==> status.requires(()),
    ensures
        settlement_of(end) is None ==> r is None,
        settlement_of(end) is Some ==> exists|s: FutureStatus|
            #![trigger status.ensures((), s)]
            status.ensures((), s) && r == (if s == FutureStatus::Cancelled {
                None
            } else {
                settlement_of(end)
            }),
{
    let planned = match end {
        TaskEnd::Finished(Ok(v)) => Settlement::Resolve(v),
        TaskEnd::Finished(Err(e)) => Settlement::Reject(e),
        TaskEnd::Panicked => Settlement::RejectPanic,
        TaskEnd::Aborted => {
            return None;
        },
    };
    let s = status();
    match s {
        FutureStatus::Cancelled => None,
        _ => Some(planned),
    }
}

/// One settlement attempt keeps the settle-once rule: it makes a settlement only while nothing
/// was settled, and the future counts as settled afterwards exactly when it was before or one was
/// made now.
pub open spec fn settle_once_step(before: bool, made: bool, after: bool) -> bool {
    (made ==> !before) && after == (before || made)
}

/// How many of the attempts made a settlement.
pub open spec fn settlement_count(made: Seq<bool>) -> nat
    decreases made.len(),
{
    if made.len() == 0 {
        0
    } else {
        (if made[0] {
            1nat
        } else {
            0nat
        }) + settlement_count(made.drop_first())
    }
}

/// The settlements of one Python future, shared by the tasks that may settle it (the task that
/// drives the Rust future, and the one that watches it for a panic).
pub struct SettleOnce {
    settled: bool,
}

impl SettleOnce {
    /// A settlement was made already.
    pub closed spec fn is_settled(self) -> bool {
        self.settled
    }

    /// Nothing settled yet.
    pub fn new() -> (r: Self)
        ensures
            !r.is_settled(),
    {
        SettleOnce { settled: false }
    }

    /// Settles at most once: until a settlement is given, the same decision as the free function
    /// `settle`; after that, none, and the cancellation question is skipped.
    pub fn settle<V, E, C: FnOnce() -> FutureStatus>(&mut self, end: TaskEnd<V, E>, status: C) -> (r:
        Option<Settlement<V, E>>)
        requires
            !old(self).is_settled() && settlement_of(end) is Some ==> status.requires(()),
        ensures
            settle_once_step(old(self).is_settled(), r is Some, final(self).is_settled()),
            old(self).is_settled() ==> r is None,
            !old(self).is_settled() && settlement_of(end) is None ==> r is None,
            !old(self).is_settled() && settlement_of(end) is Some ==> exists|s: FutureStatus|
                #![trigger status.ensures((), s)]
                status.ensures((), s) && r == (if s == FutureStatus::Cancelled {
                    None
                } else {
                    settlement_of(end)
                }),
    {
        if self.settled {
            return None;
        }
        let r = settle(end, status);
        if r.is_some() {
            self.settled = true;
        }
        r
    }
}

/// The `i`-th of a sequence of attempts keeps the settle-once rule: `states[i]` before it,
/// `states[i + 1]` after it.
pub open spec fn attempt_keeps_rule(states: Seq<bool>, made: Seq<bool>, i: int) -> bool {
    settle_once_step(states[i], made[i], states[i + 1])
}

/// A Python future is settled at most once: over any sequence of attempts that each keep the
/// settle-once rule, starting from an unsettled future, at most one makes a settlement (and
/// none once it is settled).
pub proof fn lemma_settled_at_most_once(states: Seq<bool>, made: Seq<bool>)
    requires
        states.len() == made.len() + 1,
        forall|i: int| 0 <= i < made.len() ==> #[trigger] attempt_keeps_rule(states, made, i),
    ensures
        settlement_count(made) <= (if states[0] {
            0nat
        } else {
            1nat
        }),
    decreases made.len(),
{
    if made.len() > 0 {
        assert(attempt_keeps_rule(states, made, 0));
        let rest_states = states.drop_first();
        let rest = made.drop_first();
        assert forall|i: int| 0 <= i < rest.len() implies #[trigger] attempt_keeps_rule(
            rest_states,
            rest,
            i,
        ) by {
            assert(attempt_keeps_rule(states, made, i + 1));
        }
        lemma_settled_at_most_once(rest_states, rest);
    }
}

// ---------------------------------------------------------------------------------------------
// Stopping a Rust future when its Python future is cancelled
// ---------------------------------------------------------------------------------------------

/// What polling the cancellation receiver reported.
#[derive(PartialEq, Eq, Structural)]
pub enum CancelSignal {
    /// The Python future was cancelled.
    Cancelled,
    /// The sending side went away without a cancellation.
    SenderDropped,
    /// Nothing yet.
    Waiting,
}

/// What polling the wrapped Rust future reported.
pub enum Polled<T> {
    /// It completed with this output.
    Ready(T),
    /// It is not done yet.
    Pending,
}

/// What a cancellable future reports for one poll.
pub enum CancellablePoll<T> {
    /// The wrapped future completed with this output.
    Ready(T),
    /// The Python future was cancelled: the Rust future stops here.
    Cancelled,
    /// Not done yet.
    Pending,
}

/// One poll of a cancellable future, over abstract inputs: whether it still watches the
/// cancellation receiver afterwards, and whether it reports a cancellation.
pub open spec fn watch_step(watching: bool, inner_ready: bool, signal: CancelSignal) -> (bool, bool) {
    if inner_ready {
        (watching, false)
    } else if !watching {
        (false, false)
    } else {
        (signal == CancelSignal::Waiting, signal == CancelSignal::Cancelled)
    }
}

/// How many cancellations a cancellable future reports over a sequence of polls, each given by
/// whether the wrapped future was ready and what the cancellation receiver would report.
pub open spec fn cancel_reports(watching: bool, polls: Seq<(bool, CancelSignal)>) -> nat
    decreases polls.len(),
{
    if polls.len() == 0 {
        0
    } else {
        let (next, reported) = watch_step(watching, polls[0].0, polls[0].1);
        (if reported {
            1nat
        } else {
            0nat
        }) + cancel_reports(next, polls.drop_first())
    }
}

/// The cancellation state of a future that stops when its Python future is cancelled.
pub struct CancelWatch {
    watching: bool,
}

impl CancelWatch {
    /// The cancellation receiver is still polled.
    pub closed spec fn is_watching(self) -> bool {
        self.watching
    }

    /// A fresh watch, polling the cancellation receiver.
    pub fn new() -> (w: Self)
        ensures
            w.is_watching(),
    {
        CancelWatch { watching: true }
    }

    /// Whether the cancellation receiver is still polled.
    pub fn watching(&self) -> (r: bool)
        ensures
            r == self.is_watching(),
    {
        self.watching
    }

    /// One poll: the wrapped future's report comes first; only when it is pending, and only while
    /// the receiver is watched, is `poll_cancel` called. A cancellation ends the future; a
    /// dropped sender stops the watching for good.
    pub fn poll<T, P: FnOnce() -> CancelSignal>(&mut self, inner: Polled<T>, poll_cancel: P) -> (r:
        CancellablePoll<T>)
        requires
            old(self).is_watching() ==> poll_cancel.requires(()),
        ensures
            inner matches Polled::Ready(v) ==> r == CancellablePoll::Ready(v)
                && final(self).is_watching() == old(self).is_watching(),
            inner is Pending && !old(self).is_watching() ==> r is Pending
                && !final(self).is_watching(),
            inner is Pending && old(self).is_watching() ==> exists|s: CancelSignal|
                #![trigger poll_cancel.ensures((), s)]
                poll_cancel.ensures((), s)
                && final(self).is_watching() == watch_step(true, false, s).0 && (if watch_step(true, false, s).1 {
                    r is Cancelled
                } else {
                    r is Pending
                }),
    {
        match inner {
            Polled::Ready(v) => CancellablePoll::Ready(v),
            Polled::Pending => {
                if self.watching {
                    let s = poll_cancel();
                    match s {
                        CancelSignal::Cancelled => {
                            self.watching = false;
                            CancellablePoll::Cancelled
                        },
                        CancelSignal::SenderDropped => {
                            self.watching = false;
                            CancellablePoll::Pending
                        },
                        CancelSignal::Waiting => CancellablePoll::Pending,
                    }
                } else {
                    CancellablePoll::Pending
                }
            },
        }
    }
}

/// Once the watch has stopped, no later poll watches again.
pub proof fn lemma_watch_never_rearms(inner_ready: bool, signal: CancelSignal)
    ensures
        !watch_step(false, inner_ready, signal).0,
        !watch_step(false, inner_ready, signal).1,
{
}

/// A cancellable future reports a cancellation at most once, and never after it stopped watching.
pub proof fn lemma_cancel_reported_at_most_once(watching: bool, polls: Seq<(bool, CancelSignal)>)
    ensures
        cancel_reports(watching, polls) <= (if watching {
            1nat
        } else {
            0nat
        }),
    decreases polls.len(),
{
    if polls.len() > 0 {
        let (next, reported) = watch_step(watching, polls[0].0, polls[0].1);
        lemma_cancel_reported_at_most_once(next, polls.drop_first());
        if reported {
            assert(!next);
        }
    }
}

// ---------------------------------------------------------------------------------------------
// Completions handed out once
// ---------------------------------------------------------------------------------------------

/// A slot that hands out its content (the sending side of a completion channel) at most once.
pub struct OneShot<S> {
    slot: Option<S>,
}

/// `out` is what firing a slot holding `before` returns, and `after` what it holds afterwards.
pub open spec fn fired<S>(before: Option<S>, after: Option<S>, out: Option<S>) -> bool {
    out == before && after is None
}

impl<S> OneShot<S> {
    /// What the slot still holds.
    pub closed spec fn held(self) -> Option<S> {
        self.slot
    }

    /// A slot holding `content`, if any.
    pub fn new(content: Option<S>) -> (r: Self)
        ensures
            r.held() == content,
    {
        OneShot { slot: content }
    }

    /// Whether the slot still holds its content.
    pub fn is_armed(&self) -> (r: bool)
        ensures
            r == self.held() is Some,
    {
        self.slot.is_some()
    }

    /// Hands out the content, leaving the slot empty.
    pub fn fire(&mut self) -> (r: Option<S>)
        ensures
            fired(old(self).held(), final(self).held(), r),
    {
        self.slot.take()
    }

    /// Hands the content and `item` to `send`, leaving the slot empty; with nothing left in the
    /// slot, `send` is not called.
    pub fn fire_with<T, R, F: FnOnce(S, T) -> R>(&mut self, item: T, send: F) -> (r: Option<R>)
        requires
            forall|s: S, t: T| send.requires((s, t)),
        ensures
            final(self).held() is None,
            old(self).held() is None ==> r is None,
            old(self).held() matches Some(s) ==> exists|o: R|
                #![trigger send.ensures((s, item), o)]
                send.ensures((s, item), o) && r == Some(o),
    {
        match self.slot.take() {
            Some(s) => Some(send(s, item)),
            None => None,
        }
    }

    /// Hands out the content only if the watched future was cancelled.
    pub fn fire_if(&mut self, cancelled: bool) -> (r: Option<S>)
        ensures
            cancelled ==> fired(old(self).held(), final(self).held(), r),
            !cancelled ==> r is None && final(self).held() == old(self).held(),
    {
        if cancelled {
            self.slot.take()
        } else {
            None
        }
    }
}

/// Firing a slot twice hands out nothing the second time.
pub proof fn lemma_fires_once<S>(
    first: Option<S>,
    second: Option<S>,
    third: Option<S>,
    out1: Option<S>,
    out2: Option<S>,
)
    requires
        fired(first, second, out1),
        fired(second, third, out2),
    ensures
        out2 is None,
{
}

// ---------------------------------------------------------------------------------------------
// Receiving the result of a Python awaitable
// ---------------------------------------------------------------------------------------------

/// The result a Rust future yields for a Python awaitable: what the completion channel delivered,
/// or, when the sending side went away without delivering (the awaitable was cancelled), the error
/// that `cancelled_error` builds.
pub fn resolve_receipt<T, E, C: FnOnce() -> E>(received: Option<Result<T, E>>, cancelled_error: C) -> (r:
    Result<T, E>)
    requires
        received is None ==> cancelled_error.requires(()),
    ensures
        received matches Some(item) ==> r == item,
        received is None ==> exists|e: E|
            #![trigger cancelled_error.ensures((), e)]
            cancelled_error.ensures((), e) && r == Err::<T, E>(e),
{
    match received {
        Some(item) => item,
        None => Err(cancelled_error()),
    }
}

} // verus!
