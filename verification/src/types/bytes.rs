//! The Python `bytes` type.
use vstd::prelude::*;

verus! {

/// Represents a Python `bytes` object: an immutable sequence of bytes.
pub struct PyBytes {
    data: Vec<u8>,
}

impl View for PyBytes {
    type V = Seq<u8>;

    closed spec fn view(&self) -> Seq<u8> {
        self.data@
    }
}

impl PyBytes {
    /// A `bytes` object that holds a copy of `data`.
    pub fn new(data: &[u8]) -> (b: PyBytes)
        ensures
            b@ == data@,
    {
        PyBytes { data: vstd::slice::slice_to_vec(data) }
    }

    /// A `bytes` object that takes over the bytes of `data`.
    pub fn from_vec(data: Vec<u8>) -> (b: PyBytes)
        ensures
            b@ == data@,
    {
        PyBytes { data }
    }

    /// The bytes of this object.
    pub fn as_bytes(&self) -> (r: &[u8])
        ensures
            r@ == self@,
    {
        self.data.as_slice()
    }
}

} // verus!
