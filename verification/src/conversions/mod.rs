pub mod backtrace;
pub mod file;
