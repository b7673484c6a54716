pub mod buffers;
pub mod bytes_writer;
pub mod byteswriter;
pub mod conversions;
pub mod err;
pub mod inspect;
pub mod types;
