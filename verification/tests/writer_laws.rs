use pyo3_model::bytes_writer::PyBytesWriter as AppendWriter;
use pyo3_model::byteswriter::{PyBytesWriter, SeekFrom, WriterError};
use pyo3_model::err::PyErr;

#[test]
fn write_past_end_fills_gap_with_zeros() {
    let mut writer = PyBytesWriter::new();
    writer.write_all(b"ab").unwrap();
    assert_eq!(writer.seek(SeekFrom::Start(5)), Ok(5));
    assert_eq!(writer.as_bytes(), b"ab");
    writer.write_all(b"cd").unwrap();
    assert_eq!(writer.as_bytes(), b"ab\0\0\0cd");
    assert_eq!(writer.stream_position(), Ok(7));
}

#[test]
fn overwrite_in_the_middle_keeps_the_rest() {
    let mut writer = PyBytesWriter::new();
    writer.write_all(b"hello world").unwrap();
    writer.seek(SeekFrom::Start(6)).unwrap();
    writer.write_all(b"W").unwrap();
    assert_eq!(writer.as_bytes(), b"hello World");
    assert_eq!(writer.len(), 11);
}

#[test]
fn consecutive_writes_equal_one_write() {
    let mut a = PyBytesWriter::new();
    a.seek(SeekFrom::Start(2)).unwrap();
    a.write_all(b"xy").unwrap();
    a.write_all(b"z").unwrap();
    let mut b = PyBytesWriter::new();
    b.seek(SeekFrom::Start(2)).unwrap();
    b.write_all(b"xyz").unwrap();
    assert_eq!(a.as_bytes(), b.as_bytes());
    assert_eq!(a.stream_position(), b.stream_position());
}

#[test]
fn seek_from_end_and_current() {
    let mut writer = PyBytesWriter::new();
    writer.write_all(b"0123456789").unwrap();
    assert_eq!(writer.seek(SeekFrom::End(-3)), Ok(7));
    assert_eq!(writer.seek(SeekFrom::Current(-2)), Ok(5));
    assert_eq!(writer.seek(SeekFrom::End(2)), Ok(12));
    assert_eq!(writer.len(), 10);
}

#[test]
fn seek_before_start_is_refused() {
    let mut writer = PyBytesWriter::new();
    writer.write_all(b"abc").unwrap();
    assert_eq!(writer.seek(SeekFrom::Current(-4)), Err(WriterError::InvalidSeekPosition));
    assert_eq!(writer.seek(SeekFrom::End(-4)), Err(WriterError::InvalidSeekPosition));
    assert_eq!(writer.seek_relative(-4), Err(WriterError::InvalidSeekPosition));
    assert_eq!(writer.stream_position(), Ok(3));
}

#[test]
fn write_that_overflows_the_position_is_refused() {
    let mut writer = PyBytesWriter::new();
    assert_eq!(writer.seek(SeekFrom::Start(usize::MAX as u64)), Ok(usize::MAX as u64));
    assert_eq!(writer.write_all(b"x"), Err(WriterError::PositionOverflow));
    assert_eq!(writer.write(b"x"), Err(WriterError::PositionOverflow));
    let bufs: [&[u8]; 1] = [b"x"];
    assert_eq!(writer.write_vectored(&bufs), Err(WriterError::PositionOverflow));
    assert_eq!(writer.len(), 0);
}

#[test]
fn write_vectored_at_position_after_rewind() {
    let mut writer = PyBytesWriter::new();
    writer.write_all(b"xxxxxxxx").unwrap();
    writer.rewind().unwrap();
    let bufs: [&[u8]; 3] = [b"ab", b"", b"cd"];
    assert_eq!(writer.write_vectored(&bufs), Ok(4));
    assert_eq!(writer.as_bytes(), b"abcdxxxx");
    assert_eq!(writer.stream_position(), Ok(4));
    assert_eq!(writer.flush(), Ok(()));
}

#[test]
fn as_mut_bytes_changes_in_place() {
    let mut writer = PyBytesWriter::with_capacity(4).unwrap();
    writer.write_all(b"abcd").unwrap();
    writer.as_mut_bytes()[0] = b'z';
    assert_eq!(writer.into_pyobject().as_bytes(), b"zbcd");
}

#[test]
fn append_writer_appends() {
    let mut writer = AppendWriter::with_capacity(16).unwrap();
    assert!(writer.capacity() >= 16);
    assert_eq!(writer.write(b"hallo "), Ok(6));
    let bufs: [&[u8]; 2] = [b"wor", b"ld"];
    assert_eq!(writer.write_vectored(&bufs), Ok(5));
    assert_eq!(writer.len(), 11);
    assert!(writer.capacity() >= writer.len());
    assert_eq!(writer.flush(), Ok(()));
    assert_eq!(writer.into_pyobject().as_bytes(), b"hallo world");
}

#[test]
fn append_writer_set_len() {
    let mut writer = AppendWriter::new();
    writer.write(b"abcdef").unwrap();
    assert_eq!(writer.set_len(3), Ok(()));
    assert_eq!(writer.len(), 3);
    assert_eq!(writer.set_len(5), Ok(()));
    writer.as_mut_slice()[4] = b'!';
    assert_eq!(writer.set_len(usize::MAX), Err(PyErr::ValueError));
    assert_eq!(writer.reserve(8), Ok(()));
    assert_eq!(writer.into_pyobject().as_bytes(), b"abc\0!");
}

#[test]
fn append_writer_reserve_makes_room() {
    let mut writer = AppendWriter::new();
    writer.write(b"abc").unwrap();
    assert_eq!(writer.reserve(100), Ok(()));
    assert!(writer.capacity() >= 103);
    assert_eq!(writer.as_mut_slice(), b"abc");
    let too_much = isize::MAX as usize;
    assert_eq!(writer.reserve(too_much), Err(PyErr::MemoryError));
    assert_eq!(writer.reserve(usize::MAX), Err(PyErr::MemoryError));
    assert_eq!(writer.len(), 3);
    assert!(AppendWriter::with_capacity(too_much + 1).is_err());
}

#[test]
fn positional_writer_capacity_and_size_limit() {
    let mut writer = PyBytesWriter::with_capacity(64).unwrap();
    assert!(writer.capacity() >= 64);
    assert_eq!(writer.len(), 0);
    let too_much = isize::MAX as usize + 1;
    assert_eq!(PyBytesWriter::with_capacity(too_much).err(), Some(WriterError::InvalidSize));
    assert_eq!(PyBytesWriter::with_capacity(usize::MAX).err(), Some(WriterError::InvalidSize));
    writer.write_all(b"abc").unwrap();
    assert_eq!(writer.seek(SeekFrom::Start(isize::MAX as u64)), Ok(isize::MAX as u64));
    assert_eq!(writer.write_all(b"x"), Err(WriterError::InvalidSize));
    let bufs: [&[u8]; 2] = [b"", b"x"];
    assert_eq!(writer.write_vectored(&bufs), Err(WriterError::InvalidSize));
    assert_eq!(writer.as_bytes(), b"abc");
    writer.rewind().unwrap();
    assert_eq!(writer.write(b"AB"), Ok(2));
    assert_eq!(writer.as_bytes(), b"ABc");
    assert!(writer.capacity() >= writer.len());
}

#[test]
fn append_writer_uses_the_room_it_has() {
    let mut writer = AppendWriter::with_capacity(8).unwrap();
    let room = writer.capacity();
    assert!(room >= 8);
    let bufs: [&[u8]; 2] = [b"ab", b"cd"];
    assert_eq!(writer.write_vectored(&bufs), Ok(4));
    assert_eq!(writer.write(b"ef"), Ok(2));
    assert_eq!(writer.as_mut_slice(), b"abcdef");
    assert_eq!(writer.set_len(2), Ok(()));
    assert_eq!(writer.set_len(4), Ok(()));
    assert_eq!(writer.as_mut_slice(), b"ab\0\0");
    assert_eq!(writer.set_len(isize::MAX as usize + 1), Err(PyErr::ValueError));
    assert_eq!(writer.len(), 4);
}
