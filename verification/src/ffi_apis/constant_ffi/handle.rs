//! The handle channel: a build string as an owned C string.

use crate::constant::{
    get_build_date, get_cargo_target_triple, get_commit_sha, get_rustc_version, get_system_info,
    is_vetted_text, BUILD_DATE, CARGO_TARGET_TRIPLE, COMMIT_SHA, RUSTC_VERSION, SYSTEM_INFO,
};
use crate::ffi_apis::common::{
    c_str_text, c_string_of, is_nul_free, lemma_c_string_round_trip, to_c_string, ExportedString,
};
use vstd::prelude::*;
use vstd::utf8::*;

verus! {

/// `exported` is the C string of `text`, and reads back as `text`.
pub open spec fn exports_text(exported: Option<ExportedString>, text: Seq<char>) -> bool {
    &&& exported matches Some(e)
    &&& e@ == encode_utf8(text)
    &&& c_str_text(Some(e@.push(0))) == Some(text)
}

/// A vetted text always has a C string, and that C string reads back as the
/// text.
pub proof fn lemma_vetted_text_exports(text: Seq<char>)
    requires
        is_vetted_text(text),
    ensures
        c_string_of(text) == Some(encode_utf8(text)),
        c_str_text(Some(encode_utf8(text).push(0))) == Some(text),
{
    assert(is_ascii_chars(text));
    is_ascii_chars_encode_utf8(text);
    let bytes = encode_utf8(text);
    assert forall|i: int| 0 <= i < bytes.len() implies #[trigger] bytes[i] != 0 by {
        assert(' ' <= text[i] <= '~');
        assert(text[i] as u8 == bytes[i]);
    }
    assert(is_nul_free(bytes));
    lemma_c_string_round_trip(text);
}

/// Exports a vetted text on the handle channel.
fn export_vetted(text: &str) -> (r: Option<ExportedString>)
    requires
        is_vetted_text(text@),
    ensures
        exports_text(r, text@),
{
    proof {
        lemma_vetted_text_exports(text@);
    }
    to_c_string(text.to_owned())
}

/// Returns the build date as a C string.
/// The caller must free the returned string using `rssn_free_string`.
pub fn rssn_get_build_date() -> (r: Option<ExportedString>)
    ensures
        exports_text(r, BUILD_DATE@),
{
    export_vetted(get_build_date())
}

/// Returns the commit SHA as a C string.
/// The caller must free the returned string using `rssn_free_string`.
pub fn rssn_get_commit_sha() -> (r: Option<ExportedString>)
    ensures
        exports_text(r, COMMIT_SHA@),
{
    export_vetted(get_commit_sha())
}

/// Returns the rustc version as a C string.
/// The caller must free the returned string using `rssn_free_string`.
pub fn rssn_get_rustc_version() -> (r: Option<ExportedString>)
    ensures
        exports_text(r, RUSTC_VERSION@),
{
    export_vetted(get_rustc_version())
}

/// Returns the cargo target triple as a C string.
/// The caller must free the returned string using `rssn_free_string`.
pub fn rssn_get_cargo_target_triple() -> (r: Option<ExportedString>)
    ensures
        exports_text(r, CARGO_TARGET_TRIPLE@),
{
    export_vetted(get_cargo_target_triple())
}

/// Returns the system info as a C string.
/// The caller must free the returned string using `rssn_free_string`.
pub fn rssn_get_system_info() -> (r: Option<ExportedString>)
    ensures
        exports_text(r, SYSTEM_INFO@),
{
    export_vetted(get_system_info())
}

/// The five build strings, each as an owned C string.
#[derive(Debug)]
pub struct ExportedBuildInfo {
    /// The date when the library was built.
    pub build_date: ExportedString,
    /// The commit SHA of the build.
    pub commit_sha: ExportedString,
    /// The rustc version used for building.
    pub rustc_version: ExportedString,
    /// The cargo target triple.
    pub cargo_target_triple: ExportedString,
    /// System information.
    pub system_info: ExportedString,
}

/// Returns all build information, each field as the C string that its own
/// accessor returns. Every field must be freed using `rssn_free_string`.
pub fn rssn_get_build_info() -> (r: Option<ExportedBuildInfo>)
    ensures
        r matches Some(info) && {
            &&& exports_text(Some(info.build_date), BUILD_DATE@)
            &&& exports_text(Some(info.commit_sha), COMMIT_SHA@)
            &&& exports_text(Some(info.rustc_version), RUSTC_VERSION@)
            &&& exports_text(Some(info.cargo_target_triple), CARGO_TARGET_TRIPLE@)
            &&& exports_text(Some(info.system_info), SYSTEM_INFO@)
        },
{
    let build_date = rssn_get_build_date();
    let commit_sha = rssn_get_commit_sha();
    let rustc_version = rssn_get_rustc_version();
    let cargo_target_triple = rssn_get_cargo_target_triple();
    let system_info = rssn_get_system_info();
    match (build_date, commit_sha, rustc_version, cargo_target_triple, system_info) {
        (
            Some(build_date),
            Some(commit_sha),
            Some(rustc_version),
            Some(cargo_target_triple),
            Some(system_info),
        ) => Some(
            ExportedBuildInfo {
                build_date,
                commit_sha,
                rustc_version,
                cargo_target_triple,
                system_info,
            },
        ),
        _ => None,
    }
}

/// Frees a C string that was allocated by the `rssn_get_*` functions in this
/// module. The string is given up with the call; a null pointer is accepted.
pub fn rssn_free_string_constant(ptr: Option<ExportedString>) {
    let _ = ptr;
}

} // verus!
