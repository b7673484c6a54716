//! Conversion of a frame of a Rust backtrace into a Python frame object.
use crate::err::{PyErr, PyResult};
use crate::types::frame::PyFrame;
use vstd::prelude::*;
use vstd::string::*;

verus! {

/// A frame of a Rust backtrace, as `btparse` reads it: the function, and where known, the
/// file and the line.
pub struct Frame {
    pub function: String,
    pub file: Option<String>,
    pub line: Option<usize>,
}

/// Whether a string holds the nul character, which a C string cannot.
pub open spec fn has_nul(s: Seq<char>) -> bool {
    s.contains('\0')
}

/// The file name that a frame reports: its file, or `<unknown>` where it has none.
pub open spec fn frame_file_name(file: Option<String>) -> Seq<char> {
    match file {
        Some(f) => f@,
        None => "<unknown>"@,
    }
}

/// Whether `s` holds the nul character.
fn contains_nul(s: &str) -> (r: bool)
    ensures
        r == has_nul(s@),
{
    let n = s.unicode_len();
    let mut i: usize = 0;
    while i < n
        invariant
            0 <= i <= n,
            n == s@.len(),
            forall|j: int| 0 <= j < i ==> s@[j] != '\0',
        decreases n - i,
    {
        if s.get_char(i) == '\0' {
            return true;
        }
        i += 1;
    }
    false
}

impl Frame {
    /// The Python frame for this frame.
    ///
    /// Fails with `ValueError` where the file name or the function name holds a nul
    /// character, and then with `OverflowError` where the line number does not fit an `i32`.
    pub fn into_pyobject(&self) -> (r: PyResult<PyFrame>)
        ensures
            has_nul(frame_file_name(self.file)) || has_nul(self.function@) ==> r == Err::<
                PyFrame,
                PyErr,
            >(PyErr::ValueError),
            !has_nul(frame_file_name(self.file)) && !has_nul(self.function@) ==> {
                let line: int = match self.line {
                    Some(l) => l as int,
                    None => 0,
                };
                &&& line > i32::MAX ==> r == Err::<PyFrame, PyErr>(PyErr::OverflowError)
                &&& line <= i32::MAX ==> (r matches Ok(f) && f.file_name@ == frame_file_name(
                    self.file,
                ) && f.func_name@ == self.function@ && f.line_number == line)
            },
    {
        let file_name = match &self.file {
            Some(f) => f.clone(),
            None => String::from_str("<unknown>"),
        };
        if contains_nul(file_name.as_str()) {
            return Err(PyErr::ValueError);
        }
        if contains_nul(self.function.as_str()) {
            return Err(PyErr::ValueError);
        }
        let func_name = self.function.clone();
        let line: usize = match self.line {
            Some(l) => l,
            None => 0,
        };
        if line > i32::MAX as usize {
            return Err(PyErr::OverflowError);
        }
        Ok(PyFrame::new(file_name, func_name, line as i32))
    }
}

} // verus!
