//! The Python objects the library handles, and each call it makes into the interpreter.
//!
//! What a Python call returns depends on the interpreter's state (the event loop's, the modules'),
//! so the pyo3 calls themselves (the private `pyo3_*` functions) promise nothing of their results.
//! Each is reached through a verified function of the same name without the prefix, whose
//! `ensures` records which call was made and with what: a predicate such as
//! [`method_called0`]`(obj, name, r)` holds exactly of the answers that the pyo3 call on `obj`
//! and `name` can give. The predicates are closed, so outside this module they can only be had
//! by making that call; the decisions taken on the answers are made, and proved, by the callers.

use pyo3::exceptions::PyKeyboardInterrupt;
use pyo3::types::{PyDict, PyTuple};
use pyo3::{IntoPy, Py, PyAny, PyErr, Python};
use vstd::prelude::*;

verus! {

#[verifier::external_type_specification]
#[verifier::external_body]
pub struct ExPython<'py>(Python<'py>);

#[verifier::external_type_specification]
#[verifier::external_body]
pub struct ExPyAny(PyAny);

#[verifier::external_type_specification]
#[verifier::external_body]
pub struct ExPyErr(PyErr);

#[verifier::external_type_specification]
#[verifier::external_body]
pub struct ExPyTuple(PyTuple);

#[verifier::external_type_specification]
#[verifier::external_body]
pub struct ExPyDict(PyDict);

#[verifier::external_type_specification]
#[verifier::external_body]
#[verifier::reject_recursive_types(T)]
pub struct ExPy<T>(Py<T>);

/// Cloning an owned reference (pyo3's `Clone for Py<T>`) registers one more reference to the
/// same object and returns the same pointer.
pub assume_specification<T>[ <Py<T> as Clone>::clone ](obj: &Py<T>) -> (r: Py<T>)
    ensures
        r == *obj,
;

// ---------------------------------------------------------------------------------------------
// The pyo3 calls
// ---------------------------------------------------------------------------------------------

/// Imports the module `name` (pyo3's `Python::import`) and hands it out as a plain object.
#[verifier::external_body]
fn pyo3_import<'py>(py: Python<'py>, name: &str) -> Result<&'py PyAny, PyErr> {
    let module: &PyAny = py.import(name)?;
    Ok(module)
}

/// Reads the attribute `name` of `obj` (pyo3's `PyAny::getattr`).
#[verifier::external_body]
fn pyo3_getattr<'py>(obj: &'py PyAny, name: &str) -> Result<&'py PyAny, PyErr> {
    obj.getattr(name)
}

/// Whether `obj` has the attribute `name` (pyo3's `PyAny::hasattr`).
#[verifier::external_body]
fn pyo3_hasattr(obj: &PyAny, name: &str) -> Result<bool, PyErr> {
    obj.hasattr(name)
}

/// Calls `obj()` (pyo3's `PyAny::call0`).
#[verifier::external_body]
fn pyo3_call0<'py>(obj: &'py PyAny) -> Result<&'py PyAny, PyErr> {
    obj.call0()
}

/// Calls `obj(*args)` (pyo3's `PyAny::call1`).
#[verifier::external_body]
fn pyo3_call1<'py>(obj: &'py PyAny, args: &'py PyTuple) -> Result<&'py PyAny, PyErr> {
    obj.call1(args)
}

/// Calls `obj.name()` (pyo3's `PyAny::call_method0`).
#[verifier::external_body]
fn pyo3_call_method0<'py>(obj: &'py PyAny, name: &str) -> Result<&'py PyAny, PyErr> {
    obj.call_method0(name)
}

/// Calls `obj.name(*args, **kwargs)` (pyo3's `PyAny::call_method`).
#[verifier::external_body]
fn pyo3_call_method<'py>(obj: &'py PyAny, name: &str, args: &'py PyTuple, kwargs: Option<
    &'py PyDict,
>) -> Result<&'py PyAny, PyErr> {
    obj.call_method(name, args, kwargs)
}

/// Python's truth value of `obj` (pyo3's `PyAny::is_true`).
#[verifier::external_body]
fn pyo3_is_true(obj: &PyAny) -> Result<bool, PyErr> {
    obj.is_true()
}

/// A Python tuple of the given objects (pyo3's `PyTuple::new`).
#[verifier::external_body]
fn pyo3_new_tuple<'py>(py: Python<'py>, items: Vec<&'py PyAny>) -> &'py PyTuple {
    PyTuple::new(py, items)
}

/// A new, empty Python dict (pyo3's `PyDict::new`).
#[verifier::external_body]
fn pyo3_new_dict<'py>(py: Python<'py>) -> &'py PyDict {
    PyDict::new(py)
}

/// Sets `dict[key] = value` (pyo3's `PyDict::set_item`).
#[verifier::external_body]
fn pyo3_dict_set_item(dict: &PyDict, key: &str, value: &PyAny) -> Result<(), PyErr> {
    dict.set_item(key, value)
}

/// The GIL token that `obj` is borrowed under (pyo3's `PyAny::py`).
#[verifier::external_body]
pub(crate) fn gil_of<'py>(obj: &'py PyAny) -> Python<'py> {
    obj.py()
}

/// An owned reference to `obj` (pyo3's `From<&PyAny> for Py<PyAny>`).
#[verifier::external_body]
fn pyo3_to_object(obj: &PyAny) -> Py<PyAny> {
    Py::from(obj)
}

/// Borrows the object behind an owned reference (pyo3's `Py::as_ref`).
#[verifier::external_body]
fn pyo3_as_ref<'py>(obj: &'py Py<PyAny>, py: Python<'py>) -> &'py PyAny {
    obj.as_ref(py)
}

/// Python's `None` (pyo3's `Python::None`).
#[verifier::external_body]
fn pyo3_none(py: Python<'_>) -> Py<PyAny> {
    py.None()
}

/// Whether the error is a `KeyboardInterrupt` (pyo3's `PyErr::is_instance_of`).
#[verifier::external_body]
fn pyo3_is_keyboard_interrupt(py: Python<'_>, err: &PyErr) -> bool {
    err.is_instance_of::<PyKeyboardInterrupt>(py)
}

/// The error that raises the exception object `obj` (pyo3's `PyErr::from_value`).
#[verifier::external_body]
fn pyo3_error_from_value(obj: &PyAny) -> PyErr {
    PyErr::from_value(obj)
}

/// The exception object of an error (pyo3's `IntoPy<PyObject> for PyErr`).
#[verifier::external_body]
fn pyo3_error_value<'py>(py: Python<'py>, err: PyErr) -> &'py PyAny {
    err.into_py(py).into_ref(py)
}

// ---------------------------------------------------------------------------------------------
// What each call can answer
// ---------------------------------------------------------------------------------------------

/// `r` is an answer of importing the module `name`.
pub closed spec fn imported<'py>(name: &str, r: Result<&'py PyAny, PyErr>) -> bool {
    exists|py: Python<'py>| #[trigger] call_ensures(pyo3_import, (py, name), r)
}

/// `r` is an answer of reading `obj.name`.
pub closed spec fn attribute<'py>(obj: &'py PyAny, name: &str, r: Result<&'py PyAny, PyErr>) -> bool {
    call_ensures(pyo3_getattr, (obj, name), r)
}

/// `r` is an answer of `hasattr(obj, name)`.
pub closed spec fn has_attribute(obj: &PyAny, name: &str, r: Result<bool, PyErr>) -> bool {
    call_ensures(pyo3_hasattr, (obj, name), r)
}

/// `r` is an answer of `f()`.
pub closed spec fn called0<'py>(f: &'py PyAny, r: Result<&'py PyAny, PyErr>) -> bool {
    call_ensures(pyo3_call0, (f,), r)
}

/// `r` is an answer of `f(*args)`, the arguments packed in a new tuple in their order.
pub closed spec fn called<'py>(f: &'py PyAny, args: Seq<&'py PyAny>, r: Result<&'py PyAny, PyErr>) -> bool {
    exists|py: Python<'py>, items: Vec<&'py PyAny>, t: &'py PyTuple|
        #![trigger call_ensures(pyo3_new_tuple, (py, items), t), call_ensures(pyo3_call1, (f, t), r)]
        items@ == args && call_ensures(pyo3_new_tuple, (py, items), t) && call_ensures(
            pyo3_call1,
            (f, t),
            r,
        )
}

/// `r` is an answer of `obj.name()`.
pub closed spec fn method_called0<'py>(obj: &'py PyAny, name: &str, r: Result<&'py PyAny, PyErr>) -> bool {
    call_ensures(pyo3_call_method0, (obj, name), r)
}

/// `r` is an answer of `obj.name(*args, **kwargs)`, the arguments packed in a new tuple in their
/// order.
pub closed spec fn method_called<'py>(
    obj: &'py PyAny,
    name: &str,
    args: Seq<&'py PyAny>,
    kwargs: Option<&'py PyDict>,
    r: Result<&'py PyAny, PyErr>,
) -> bool {
    exists|py: Python<'py>, items: Vec<&'py PyAny>, t: &'py PyTuple|
        #![trigger call_ensures(pyo3_new_tuple, (py, items), t), call_ensures(pyo3_call_method, (obj, name, t, kwargs), r)]
        items@ == args && call_ensures(pyo3_new_tuple, (py, items), t) && call_ensures(
            pyo3_call_method,
            (obj, name, t, kwargs),
            r,
        )
}

/// `r` is an answer of `bool(obj)`.
pub closed spec fn truth(obj: &PyAny, r: Result<bool, PyErr>) -> bool {
    call_ensures(pyo3_is_true, (obj,), r)
}

/// `r` is the keyword arguments `{"context": cx}` in a new dict, or the error of setting the item.
pub closed spec fn kwargs_with_context<'py>(cx: &'py PyAny, r: Result<&'py PyDict, PyErr>) -> bool {
    exists|py: Python<'py>, dict: &'py PyDict, s: Result<(), PyErr>|
        #![trigger call_ensures(pyo3_new_dict, (py,), dict), call_ensures(pyo3_dict_set_item, (dict, "context", cx), s)]
        call_ensures(pyo3_new_dict, (py,), dict) && call_ensures(
            pyo3_dict_set_item,
            (dict, "context", cx),
            s,
        ) && r == (match s {
            Ok(_) => Ok::<&'py PyDict, PyErr>(dict),
            Err(e) => Err(e),
        })
}

/// `r` is an owned reference to `obj`.
pub closed spec fn owned(obj: &PyAny, r: Py<PyAny>) -> bool {
    call_ensures(pyo3_to_object, (obj,), r)
}

/// `r` is the object behind the owned reference `obj`.
pub closed spec fn borrowed<'py>(obj: &'py Py<PyAny>, r: &'py PyAny) -> bool {
    exists|py: Python<'py>| #[trigger] call_ensures(pyo3_as_ref, (obj, py), r)
}

/// `r` is an owned reference to Python's `None`.
pub closed spec fn none_value(r: Py<PyAny>) -> bool {
    exists|py: Python<'_>| #[trigger] call_ensures(pyo3_none, (py,), r)
}

/// `r` answers whether `err` is a `KeyboardInterrupt`.
pub closed spec fn keyboard_interrupt(err: &PyErr, r: bool) -> bool {
    exists|py: Python<'_>| #[trigger] call_ensures(pyo3_is_keyboard_interrupt, (py, err), r)
}

/// `r` is the error that raises the exception object `value`.
pub closed spec fn raised_by(value: &PyAny, r: PyErr) -> bool {
    call_ensures(pyo3_error_from_value, (value,), r)
}

/// `r` is the exception object of `err`.
pub closed spec fn exception_of<'py>(err: PyErr, r: &'py PyAny) -> bool {
    exists|py: Python<'py>| #[trigger] call_ensures(pyo3_error_value, (py, err), r)
}

// ---------------------------------------------------------------------------------------------
// The calls, as the library makes them
// ---------------------------------------------------------------------------------------------

/// Imports the module `name`.
pub(crate) fn import<'py>(py: Python<'py>, name: &str) -> (r: Result<&'py PyAny, PyErr>)
    ensures
        imported(name, r),
{
    pyo3_import(py, name)
}

/// Reads `obj.name`.
pub(crate) fn getattr<'py>(obj: &'py PyAny, name: &str) -> (r: Result<&'py PyAny, PyErr>)
    ensures
        attribute(obj, name, r),
{
    pyo3_getattr(obj, name)
}

/// Asks `hasattr(obj, name)`.
pub(crate) fn hasattr(obj: &PyAny, name: &str) -> (r: Result<bool, PyErr>)
    ensures
        has_attribute(obj, name, r),
{
    pyo3_hasattr(obj, name)
}

/// Calls `f()`.
pub(crate) fn call0<'py>(f: &'py PyAny) -> (r: Result<&'py PyAny, PyErr>)
    ensures
        called0(f, r),
{
    pyo3_call0(f)
}

/// Calls `f(*args)`.
pub(crate) fn call1<'py>(f: &'py PyAny, args: Vec<&'py PyAny>) -> (r: Result<&'py PyAny, PyErr>)
    ensures
        called(f, args@, r),
{
    let ghost items = args;
    let py = gil_of(f);
    let t = pyo3_new_tuple(py, args);
    let r = pyo3_call1(f, t);
    assert(call_ensures(pyo3_new_tuple, (py, items), t));
    r
}

/// Calls `obj.name()`.
pub(crate) fn call_method0<'py>(obj: &'py PyAny, name: &str) -> (r: Result<&'py PyAny, PyErr>)
    ensures
        method_called0(obj, name, r),
{
    pyo3_call_method0(obj, name)
}

/// Calls `obj.name(*args, **kwargs)`.
pub(crate) fn call_method<'py>(
    obj: &'py PyAny,
    name: &str,
    args: Vec<&'py PyAny>,
    kwargs: Option<&'py PyDict>,
) -> (r: Result<&'py PyAny, PyErr>)
    ensures
        method_called(obj, name, args@, kwargs, r),
{
    let ghost items = args;
    let py = gil_of(obj);
    let t = pyo3_new_tuple(py, args);
    let r = pyo3_call_method(obj, name, t, kwargs);
    assert(call_ensures(pyo3_new_tuple, (py, items), t));
    r
}

/// Asks `bool(obj)`.
pub(crate) fn is_true(obj: &PyAny) -> (r: Result<bool, PyErr>)
    ensures
        truth(obj, r),
{
    pyo3_is_true(obj)
}

/// The keyword arguments `{"context": cx}`, in a new dict.
pub(crate) fn context_kwargs<'py>(py: Python<'py>, cx: &'py PyAny) -> (r: Result<&'py PyDict, PyErr>)
    ensures
        kwargs_with_context(cx, r),
{
    let dict = pyo3_new_dict(py);
    let s = pyo3_dict_set_item(dict, "context", cx);
    let r = match s {
        Ok(()) => Ok(dict),
        Err(e) => Err(e),
    };
    assert(call_ensures(pyo3_dict_set_item, (dict, "context", cx), s));
    r
}

/// An owned reference to `obj`.
pub(crate) fn to_object(obj: &PyAny) -> (r: Py<PyAny>)
    ensures
        owned(obj, r),
{
    pyo3_to_object(obj)
}

/// Borrows the object behind an owned reference.
pub(crate) fn as_ref<'py>(obj: &'py Py<PyAny>, py: Python<'py>) -> (r: &'py PyAny)
    ensures
        borrowed(obj, r),
{
    pyo3_as_ref(obj, py)
}

/// Python's `None`.
pub(crate) fn none(py: Python<'_>) -> (r: Py<PyAny>)
    ensures
        none_value(r),
{
    pyo3_none(py)
}

/// Whether the error is a `KeyboardInterrupt`.
pub(crate) fn is_keyboard_interrupt(py: Python<'_>, err: &PyErr) -> (r: bool)
    ensures
        keyboard_interrupt(err, r),
{
    pyo3_is_keyboard_interrupt(py, err)
}

/// The error that raises the exception object `obj`.
pub(crate) fn error_from_value(obj: &PyAny) -> (r: PyErr)
    ensures
        raised_by(obj, r),
{
    pyo3_error_from_value(obj)
}

/// The exception object of an error.
pub(crate) fn error_value<'py>(py: Python<'py>, err: PyErr) -> (r: &'py PyAny)
    ensures
        exception_of(err, r),
{
    let ghost e = err;
    let r = pyo3_error_value(py, err);
    assert(call_ensures(pyo3_error_value, (py, e), r));
    r
}

} // verus!
