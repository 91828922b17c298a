//! Helper routines of the `avutil` family: four-character tags, error codes,
//! rational numbers and byte-order aliases of pixel formats, each with a
//! machine-checked contract.

pub mod avutil;
pub mod ffi;
