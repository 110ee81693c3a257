//! The trusted boundary to the embedded Python runtime.
//!
//! Each function here performs one pyo3 call inside one attached-interpreter
//! scope, so the scope is acquired and released around every delegated
//! operation, on the success and on the error path alike.  What Python
//! returns depends on the interpreter's state (which modules are installed,
//! what their code does), so nothing is promised of the results beyond their
//! shape: every caller must handle both the `Ok` and the `Err` case.

use vstd::prelude::*;
use pyo3::types::PyAnyMethods;

verus! {

#[verifier::external_type_specification]
#[verifier::external_body]
#[verifier::reject_recursive_types(T)]
pub struct ExPy<T>(pyo3::Py<T>);

#[verifier::external_type_specification]
#[verifier::external_body]
pub struct ExPyAny(pyo3::types::PyAny);

#[verifier::external_type_specification]
#[verifier::external_body]
pub struct ExPyErr(pyo3::PyErr);

/// Relies on pyo3's `Python::attach` and `Python::import`: resolves a module
/// by name in the embedded interpreter, inside one attached scope.
#[verifier::external_body]
pub(crate) fn import_module(name: &str) -> Result<pyo3::Py<pyo3::types::PyAny>, pyo3::PyErr> {
    pyo3::Python::attach(|py| Ok(py.import(name)?.into_any().unbind()))
}

/// Relies on pyo3's `PyAnyMethods::getattr`: looks the named attribute up on
/// the object, inside one attached scope.
#[verifier::external_body]
pub(crate) fn get_attr(
    obj: &pyo3::Py<pyo3::types::PyAny>,
    name: &str,
) -> Result<pyo3::Py<pyo3::types::PyAny>, pyo3::PyErr> {
    pyo3::Python::attach(|py| Ok(obj.bind(py).getattr(name)?.unbind()))
}

/// Relies on pyo3's `PyAnyMethods::call0`: calls the object with no
/// arguments, inside one attached scope.
#[verifier::external_body]
pub(crate) fn call_no_args(
    obj: &pyo3::Py<pyo3::types::PyAny>,
) -> Result<pyo3::Py<pyo3::types::PyAny>, pyo3::PyErr> {
    pyo3::Python::attach(|py| Ok(obj.bind(py).call0()?.unbind()))
}

/// Relies on pyo3's `PyAnyMethods::call_method0`: calls the named method of
/// the object with no arguments, inside one attached scope.  The call blocks
/// for as long as the method runs.
#[verifier::external_body]
pub(crate) fn call_method_no_args(
    obj: &pyo3::Py<pyo3::types::PyAny>,
    name: &str,
) -> Result<pyo3::Py<pyo3::types::PyAny>, pyo3::PyErr> {
    pyo3::Python::attach(|py| Ok(obj.bind(py).call_method0(name)?.unbind()))
}

/// Relies on pyo3's `PyAnyMethods::extract`: converts the Python value to a
/// signed 32-bit integer, failing on values with no exact representation.
#[verifier::external_body]
pub(crate) fn extract_i32(obj: &pyo3::Py<pyo3::types::PyAny>) -> Result<i32, pyo3::PyErr> {
    pyo3::Python::attach(|py| obj.bind(py).extract::<i32>())
}

/// Relies on pyo3's `Display` for `PyErr`: renders the Python exception as
/// human-readable text.
#[verifier::external_body]
pub(crate) fn err_description(e: &pyo3::PyErr) -> String {
    format!("{}", e)
}

} // verus!
