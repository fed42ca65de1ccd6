//! The export layer: the values of the registry in the three encodings that
//! foreign callers receive, and the way back from an encoded value.

/// Types and conversions shared by the three channels.
pub mod common;
/// The registry on the three channels.
pub mod constant_ffi;
