//! A fixed table of physical constants and build metadata, and the three
//! encodings (owned C string, JSON text, compact binary) under which it is
//! handed to foreign callers.

/// System and physical constants.
pub mod constant;
/// The export layer over the registry.
pub mod ffi_apis;
