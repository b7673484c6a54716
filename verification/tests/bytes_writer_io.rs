use pyo3_model::byteswriter::PyBytesWriter;

#[test]
fn test_io_write() {
    let buf = b"hallo world";
    let mut writer = PyBytesWriter::new();
    assert_eq!(writer.write(buf).unwrap(), 11);
    let bytes = writer.into_pyobject();
    assert_eq!(bytes.as_bytes(), buf);
}

#[test]
fn test_pre_allocated() {
    let buf = b"hallo world";
    let mut writer = PyBytesWriter::with_capacity(buf.len()).unwrap();
    assert_eq!(writer.len(), 0, "Writer position should be zero");
    assert_eq!(writer.write(buf).unwrap(), 11);
    let bytes = writer.into_pyobject();
    assert_eq!(bytes.as_bytes(), buf);
}

#[test]
fn test_io_write_vectored() {
    let bufs: [&[u8]; 2] = [b"hallo ", b"world"];
    let mut writer = PyBytesWriter::new();
    assert_eq!(writer.write_vectored(&bufs).unwrap(), 11);
    let bytes = writer.into_pyobject();
    assert_eq!(bytes.as_bytes(), b"hallo world");
}

#[test]
fn test_large_data() {
    let mut writer = PyBytesWriter::new();
    let large_data = vec![0; 1024]; // 1 KB
    writer.write_all(&large_data).unwrap();
    let bytes = writer.into_pyobject();
    assert_eq!(bytes.as_bytes(), large_data.as_slice());
}

#[test]
fn test_seek() {
    let mut writer = PyBytesWriter::new();
    writer.write_all(b"hello").unwrap();
    writer.seek_relative(1).unwrap();
    assert_eq!(writer.stream_position().unwrap(), 6);
    assert_eq!(writer.as_bytes(), b"hello", "Seeking past end should not change data");
    assert_eq!(writer.len(), 5, "Length should remain unchanged after seeking past end");
    writer.write_all(b"world").unwrap();
    assert_eq!(writer.as_bytes(), b"hello\0world", "unwritten bytes should be zeroed initialized");
    writer.rewind().unwrap();
    writer.write_all(b"hallo ").unwrap();
    let bytes = writer.into_pyobject();
    assert_eq!(bytes.as_bytes(), b"hallo world");
}

#[test]
fn writes_one_after_the_other() {
    let mut writer = PyBytesWriter::new();
    writer.write_all(b"Hello, ").unwrap();
    writer.write_all(b"world!").unwrap();
    let py_bytes = writer.into_pyobject();
    assert_eq!(py_bytes.as_bytes(), b"Hello, world!");
}
