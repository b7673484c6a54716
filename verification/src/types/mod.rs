pub mod any;
pub mod anydict;
pub mod anyset;
pub mod bytes;
pub mod frame;
pub mod frozendict;
pub mod set;
