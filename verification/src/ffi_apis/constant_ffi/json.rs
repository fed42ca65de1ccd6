//! The JSON channel: a value as JSON text in an owned C string.

use crate::constant::{
    get_build_date, get_cargo_target_triple, get_commit_sha, get_rustc_version, get_system_info,
    BUILD_DATE, CARGO_TARGET_TRIPLE, COMMIT_SHA, RUSTC_VERSION, SYSTEM_INFO,
};
use crate::ffi_apis::common::{
    c_str_text, c_string_of, content_of, is_nul_free, json_encode_text, json_text,
    lemma_c_string_round_trip, to_json_string, ExportedString,
};
use vstd::prelude::*;
use vstd::utf8::*;

verus! {

/// Build information: the five build strings in one record.
#[derive(Debug, Clone)]
pub struct BuildInfo {
    /// The date when the library was built.
    pub build_date: String,
    /// The commit SHA of the build.
    pub commit_sha: String,
    /// The rustc version used for building.
    pub rustc_version: String,
    /// The cargo target triple.
    pub cargo_target_triple: String,
    /// System information.
    pub system_info: String,
}

/// A build-info record, as contracts speak of it.
pub struct BuildInfoView {
    /// The date when the library was built.
    pub build_date: Seq<char>,
    /// The commit SHA of the build.
    pub commit_sha: Seq<char>,
    /// The rustc version used for building.
    pub rustc_version: Seq<char>,
    /// The cargo target triple.
    pub cargo_target_triple: Seq<char>,
    /// System information.
    pub system_info: Seq<char>,
}

impl View for BuildInfo {
    type V = BuildInfoView;

    open spec fn view(&self) -> BuildInfoView {
        BuildInfoView {
            build_date: self.build_date@,
            commit_sha: self.commit_sha@,
            rustc_version: self.rustc_version@,
            cargo_target_triple: self.cargo_target_triple@,
            system_info: self.system_info@,
        }
    }
}

/// The build information of this library: the five build strings of the
/// registry.
pub open spec fn current_build_info() -> BuildInfoView {
    BuildInfoView {
        build_date: BUILD_DATE@,
        commit_sha: COMMIT_SHA@,
        rustc_version: RUSTC_VERSION@,
        cargo_target_triple: CARGO_TARGET_TRIPLE@,
        system_info: SYSTEM_INFO@,
    }
}

impl BuildInfo {
    /// The build information of this library: a copy of the five build
    /// strings of the registry.
    pub fn current() -> (info: BuildInfo)
        ensures
            info@ == current_build_info(),
    {
        BuildInfo {
            build_date: get_build_date().to_owned(),
            commit_sha: get_commit_sha().to_owned(),
            rustc_version: get_rustc_version().to_owned(),
            cargo_target_triple: get_cargo_target_triple().to_owned(),
            system_info: get_system_info().to_owned(),
        }
    }
}

/// The JSON object of a build-info record, given the JSON text of each of
/// its five fields: the fields under their names, in the record's order,
/// with nothing between the tokens.
pub open spec fn json_record(
    build_date: Seq<char>,
    commit_sha: Seq<char>,
    rustc_version: Seq<char>,
    cargo_target_triple: Seq<char>,
    system_info: Seq<char>,
) -> Seq<char> {
    "{\"build_date\":"@ + build_date + ",\"commit_sha\":"@ + commit_sha + ",\"rustc_version\":"@
        + rustc_version + ",\"cargo_target_triple\":"@ + cargo_target_triple
        + ",\"system_info\":"@ + system_info + "}"@
}

/// The JSON text of a build-info record: the record of the JSON texts that
/// its fields have when exported one by one.
pub open spec fn build_info_json(info: BuildInfoView) -> Seq<char> {
    json_record(
        json_text(info.build_date),
        json_text(info.commit_sha),
        json_text(info.rustc_version),
        json_text(info.cargo_target_triple),
        json_text(info.system_info),
    )
}

/// Writes a build-info record as JSON text. Each field is encoded as it is
/// when exported alone; the record frames the five results.
pub fn build_info_to_json(info: &BuildInfo) -> (r: Result<String, serde_json::Error>)
    ensures
        r matches Ok(json) && json@ == build_info_json(info@),
{
    let build_date = match json_encode_text(info.build_date.as_str()) {
        Ok(json) => json,
        Err(e) => { return Err(e); },
    };
    let commit_sha = match json_encode_text(info.commit_sha.as_str()) {
        Ok(json) => json,
        Err(e) => { return Err(e); },
    };
    let rustc_version = match json_encode_text(info.rustc_version.as_str()) {
        Ok(json) => json,
        Err(e) => { return Err(e); },
    };
    let cargo_target_triple = match json_encode_text(info.cargo_target_triple.as_str()) {
        Ok(json) => json,
        Err(e) => { return Err(e); },
    };
    let system_info = match json_encode_text(info.system_info.as_str()) {
        Ok(json) => json,
        Err(e) => { return Err(e); },
    };
    let mut out = String::new();
    out.append("{\"build_date\":");
    out.append(build_date.as_str());
    out.append(",\"commit_sha\":");
    out.append(commit_sha.as_str());
    out.append(",\"rustc_version\":");
    out.append(rustc_version.as_str());
    out.append(",\"cargo_target_triple\":");
    out.append(cargo_target_triple.as_str());
    out.append(",\"system_info\":");
    out.append(system_info.as_str());
    out.append("}");
    assert(out@ =~= build_info_json(info@));
    Ok(out)
}

/// `exported` is the C string of the JSON text `json`, or null where that
/// text holds a NUL; and the C string reads back as `json`.
pub open spec fn exports_json(exported: Option<ExportedString>, json: Seq<char>) -> bool {
    &&& content_of(exported) == c_string_of(json)
    &&& exported matches Some(e) ==> c_str_text(Some(e@.push(0))) == Some(json)
}

/// Hands out JSON text on the JSON channel, given what the serializer
/// returned for it.
fn export_json(encoded: Result<String, serde_json::Error>) -> (r: Option<ExportedString>)
    requires
        encoded is Ok,
    ensures
        encoded matches Ok(json) && exports_json(r, json@),
{
    proof {
        let json = encoded->Ok_0@;
        if is_nul_free(encode_utf8(json)) {
            lemma_c_string_round_trip(json);
        }
    }
    to_json_string(encoded)
}

/// Exports a text on the JSON channel.
fn export_json_text(text: &str) -> (r: Option<ExportedString>)
    ensures
        exports_json(r, json_text(text@)),
{
    export_json(json_encode_text(text))
}

/// Returns all build information as a JSON string: the record of what the
/// five fields are exported as one by one.
/// The caller must free the returned string using `rssn_free_string`.
pub fn rssn_get_build_info_json() -> (r: Option<ExportedString>)
    ensures
        exports_json(
            r,
            json_record(
                json_text(BUILD_DATE@),
                json_text(COMMIT_SHA@),
                json_text(RUSTC_VERSION@),
                json_text(CARGO_TARGET_TRIPLE@),
                json_text(SYSTEM_INFO@),
            ),
        ),
{
    let info = BuildInfo::current();
    export_json(build_info_to_json(&info))
}

/// Returns the build date as a JSON string.
/// The caller must free the returned string using `rssn_free_string`.
pub fn rssn_get_build_date_json() -> (r: Option<ExportedString>)
    ensures
        exports_json(r, json_text(BUILD_DATE@)),
{
    export_json_text(get_build_date())
}

/// Returns the commit SHA as a JSON string.
/// The caller must free the returned string using `rssn_free_string`.
pub fn rssn_get_commit_sha_json() -> (r: Option<ExportedString>)
    ensures
        exports_json(r, json_text(COMMIT_SHA@)),
{
    export_json_text(get_commit_sha())
}

/// Returns the rustc version as a JSON string.
/// The caller must free the returned string using `rssn_free_string`.
pub fn rssn_get_rustc_version_json() -> (r: Option<ExportedString>)
    ensures
        exports_json(r, json_text(RUSTC_VERSION@)),
{
    export_json_text(get_rustc_version())
}

/// Returns the cargo target triple as a JSON string.
/// The caller must free the returned string using `rssn_free_string`.
pub fn rssn_get_cargo_target_triple_json() -> (r: Option<ExportedString>)
    ensures
        exports_json(r, json_text(CARGO_TARGET_TRIPLE@)),
{
    export_json_text(get_cargo_target_triple())
}

/// Returns the system info as a JSON string.
/// The caller must free the returned string using `rssn_free_string`.
pub fn rssn_get_system_info_json() -> (r: Option<ExportedString>)
    ensures
        exports_json(r, json_text(SYSTEM_INFO@)),
{
    export_json_text(get_system_info())
}

} // verus!
