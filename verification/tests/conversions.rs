use pyo3_model::conversions::backtrace::Frame;
use pyo3_model::conversions::file::{file_mode, file_mode_for_flags, OpenFlags};
use pyo3_model::err::PyErr;

fn frame(function: &str, file: Option<&str>, line: Option<usize>) -> Frame {
    Frame {
        function: function.to_string(),
        file: file.map(|f| f.to_string()),
        line,
    }
}

#[test]
fn frame_with_file_and_line() {
    let f = frame("main", Some("src/main.rs"), Some(12)).into_pyobject().unwrap();
    assert_eq!(f.file_name, "src/main.rs");
    assert_eq!(f.func_name, "main");
    assert_eq!(f.line_number, 12);
}

#[test]
fn frame_without_file_or_line() {
    let f = frame("run", None, None).into_pyobject().unwrap();
    assert_eq!(f.file_name, "<unknown>");
    assert_eq!(f.func_name, "run");
    assert_eq!(f.line_number, 0);
}

#[test]
fn frame_with_nul_is_a_value_error() {
    assert_eq!(frame("ma\0in", None, Some(1)).into_pyobject().err(), Some(PyErr::ValueError));
    assert_eq!(frame("main", Some("a\0b"), Some(1)).into_pyobject().err(), Some(PyErr::ValueError));
}

#[test]
fn frame_with_huge_line_is_an_overflow_error() {
    let line = i32::MAX as usize + 1;
    assert_eq!(frame("main", None, Some(line)).into_pyobject().err(), Some(PyErr::OverflowError));
    let f = frame("main", None, Some(i32::MAX as usize)).into_pyobject().unwrap();
    assert_eq!(f.line_number, i32::MAX);
}

fn platform_flags() -> OpenFlags {
    OpenFlags {
        append: libc::O_APPEND,
        creat: libc::O_CREAT,
        excl: libc::O_EXCL,
        accmode: libc::O_ACCMODE,
        rdonly: libc::O_RDONLY,
        wronly: libc::O_WRONLY,
        rdwr: libc::O_RDWR,
    }
}

#[test]
fn file_modes() {
    let b = platform_flags();
    assert_eq!(file_mode(libc::O_RDONLY, b), "rb");
    assert_eq!(file_mode(libc::O_WRONLY, b), "wb");
    assert_eq!(file_mode(libc::O_RDWR, b), "rb+");
    assert_eq!(file_mode(libc::O_WRONLY | libc::O_APPEND, b), "ab");
    assert_eq!(file_mode(libc::O_RDWR | libc::O_APPEND, b), "ab+");
    assert_eq!(file_mode(libc::O_WRONLY | libc::O_CREAT | libc::O_EXCL, b), "xb");
    assert_eq!(file_mode(libc::O_RDWR | libc::O_CREAT | libc::O_EXCL, b), "xb+");
    assert_eq!(file_mode(libc::O_WRONLY | libc::O_CREAT, b), "wb");
    assert_eq!(file_mode_for_flags(libc::O_RDWR | libc::O_APPEND).1, Some("ab+"));
    assert_eq!(file_mode_for_flags(libc::O_RDONLY).1, Some("rb"));
    let (bits, mode) = file_mode_for_flags(libc::O_WRONLY);
    assert_eq!(bits.wronly, libc::O_WRONLY);
    assert_eq!(mode, Some("wb"));
}
