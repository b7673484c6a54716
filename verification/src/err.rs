//! Python exceptions, by the type of exception raised.
use vstd::prelude::*;

verus! {

/// A Python exception, named by its type.
#[derive(PartialEq, Eq, Structural, Clone, Copy, Debug)]
pub enum PyErr {
    /// `TypeError`: an operation was applied to an object of an unsuitable type, such as
    /// hashing a `list`.
    TypeError,
    /// `MemoryError`: a buffer could not be grown.
    MemoryError,
    /// `ValueError`: an argument has a suitable type but an unsuitable value, such as a
    /// string with a nul character where a C string is needed.
    ValueError,
    /// `OverflowError`: an integer does not fit the C type it must be converted to.
    OverflowError,
    /// `OSError`: a file descriptor is not valid.
    OSError,
}

/// The result of an operation that may raise a Python exception.
pub type PyResult<T> = Result<T, PyErr>;

} // verus!
