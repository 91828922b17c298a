pub mod _avutil;
pub mod common;
pub mod error;
pub mod pixfmt;
pub mod rational;
