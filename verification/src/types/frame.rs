//! The Python frame type.
use vstd::prelude::*;

verus! {

/// Represents a Python frame object: a place in source code, as a traceback shows it.
pub struct PyFrame {
    /// The name of the source file.
    pub file_name: String,
    /// The name of the function.
    pub func_name: String,
    /// The line number.
    pub line_number: i32,
}

impl PyFrame {
    /// Creates a frame for the given file, function and line.
    pub fn new(file_name: String, func_name: String, line_number: i32) -> (f: PyFrame)
        ensures
            f.file_name@ == file_name@,
            f.func_name@ == func_name@,
            f.line_number == line_number,
    {
        PyFrame { file_name, func_name, line_number }
    }
}

} // verus!
