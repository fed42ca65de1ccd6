//! The registry on its three channels:
//! - **Handle**: the value as an owned C string
//! - **JSON**: the value as JSON text in an owned C string
//! - **Bincode**: the value in a compact binary encoding, in an owned buffer

/// The binary channel.
pub mod bincode_api;
/// The handle channel.
pub mod handle;
/// The JSON channel.
pub mod json;

pub use bincode_api::{
    build_info_from_bincode_buffer, build_info_to_bincode, constant_from_bincode_buffer,
    rssn_get_build_date_bincode, rssn_get_build_info_bincode,
    rssn_get_cargo_target_triple_bincode, rssn_get_commit_sha_bincode,
    rssn_get_constant_bincode, rssn_get_rustc_version_bincode, rssn_get_system_info_bincode,
};
pub use handle::{
    rssn_free_string_constant, rssn_get_build_date, rssn_get_build_info,
    rssn_get_cargo_target_triple, rssn_get_commit_sha, rssn_get_rustc_version,
    rssn_get_system_info, ExportedBuildInfo,
};
pub use json::{
    build_info_to_json, rssn_get_build_date_json, rssn_get_build_info_json,
    rssn_get_cargo_target_triple_json, rssn_get_commit_sha_json, rssn_get_rustc_version_json,
    rssn_get_system_info_json, BuildInfo,
};
