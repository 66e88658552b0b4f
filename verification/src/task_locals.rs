//! The task-local data that conversions carry from Python into Rust tasks.

use crate::event_loop::copy_context;
use crate::python::{gil_of, none, none_value, owned, to_object};
use pyo3::{Py, PyAny, PyErr, Python};
use vstd::prelude::*;

verus! {

/// Task-local data to store for Python conversions.
#[derive(Debug, Clone)]
#[non_exhaustive]
pub struct TaskLocals {
    /// The event loop of the Python task.
    pub event_loop: Py<PyAny>,
    /// The `contextvars` context of the Python task (`None` until one is given or copied).
    pub context: Py<PyAny>,
}

impl TaskLocals {
    /// Task locals for the event loop, with no context yet (`None`).
    pub fn new(event_loop: &PyAny) -> (r: Self)
        ensures
            owned(event_loop, r.event_loop),
            none_value(r.context),
    {
        TaskLocals { event_loop: to_object(event_loop), context: none(gil_of(event_loop)) }
    }

    /// The same task locals with the given context; the event loop is kept.
    pub fn context(self, context: &PyAny) -> (r: Self)
        ensures
            r.event_loop == self.event_loop,
            owned(context, r.context),
    {
        TaskLocals { context: to_object(context), ..self }
    }

    /// The same task locals with the copied context if there is one, else unchanged.
    pub fn with_copied_context(self, copied: Option<Py<PyAny>>) -> (r: Self)
        ensures
            r.event_loop == self.event_loop,
            copied matches Some(c) ==> r.context == c,
            copied is None ==> r == self,
    {
        match copied {
            Some(cx) => TaskLocals { context: cx, ..self },
            None => self,
        }
    }

    /// Hands the task's event loop and context to `call` and returns what it gives.
    pub fn with_loop_and_context<R, F>(&self, call: F) -> (r: R) where
        F: FnOnce(&Py<PyAny>, &Py<PyAny>) -> R,

        requires
            call.requires((&self.event_loop, &self.context)),
        ensures
            call.ensures((&self.event_loop, &self.context), r),
    {
        call(&self.event_loop, &self.context)
    }

    /// The same task locals with the context that `copy` gives: unchanged where it gives none
    /// (`contextvars` missing), the copied context otherwise; `copy`'s error is returned.
    pub fn copy_context_with<E, F>(self, copy: F) -> (r: Result<Self, E>) where
        F: FnOnce() -> Result<Option<Py<PyAny>>, E>,

        requires
            copy.requires(()),
        ensures
            exists|c: Result<Option<Py<PyAny>>, E>|
                #![trigger copy.ensures((), c)]
                copy.ensures((), c) && match c {
                    Err(e) => r == Err::<Self, E>(e),
                    Ok(None) => r == Ok::<Self, E>(self),
                    Ok(Some(cx)) => r matches Ok(l) && l.event_loop == self.event_loop
                        && l.context == cx,
                },
    {
        let copied = copy()?;
        Ok(self.with_copied_context(copied))
    }

    /// Captures the current task's `contextvars` context ([`copy_context`]); where `contextvars`
    /// is missing (Python 3.6) the task locals are kept as they are. The steps are those of
    /// [`TaskLocals::copy_context_with`].
    pub fn copy_context(self, py: Python<'_>) -> (r: Result<Self, PyErr>)
        ensures
            exists|c: Result<Option<&PyAny>, PyErr>|
                #[trigger] copy_context.ensures((py,), c) && match c {
                    Err(e) => r == Err::<Self, PyErr>(e),
                    Ok(None) => r == Ok::<Self, PyErr>(self),
                    Ok(Some(cx)) => r matches Ok(l) && l.event_loop == self.event_loop && owned(
                        cx,
                        l.context,
                    ),
                },
    {
        let copy = || -> (o: Result<Option<Py<PyAny>>, PyErr>)
            ensures
                exists|c: Result<Option<&PyAny>, PyErr>|
                    #[trigger] copy_context.ensures((py,), c) && match c {
                        Err(e) => o == Err::<Option<Py<PyAny>>, PyErr>(e),
                        Ok(None) => o == Ok::<Option<Py<PyAny>>, PyErr>(None),
                        Ok(Some(cx)) => o matches Ok(Some(x)) && owned(cx, x),
                    },
        {
            match copy_context(py) {
                Ok(Some(cx)) => Ok(Some(to_object(cx))),
                Ok(None) => Ok(None),
                Err(e) => Err(e),
            }
        };
        self.copy_context_with(copy)
    }
}

} // verus!
