//! The binary channel: a value in the compact binary encoding, in an owned
//! buffer.

use crate::constant::{
    get, get_build_date, get_cargo_target_triple, get_commit_sha, get_rustc_version,
    get_system_info, is_vetted_text, lemma_build_strings_vetted, native_value, Identifier,
    NativeValue, Value, BUILD_DATE, CARGO_TARGET_TRIPLE, COMMIT_SHA, RUSTC_VERSION, SYSTEM_INFO,
};
use crate::ffi_apis::common::{
    bincode_encode_text, bincode_text, from_bincode_buffer, lemma_bincode_text_alone,
    lemma_bincode_text_round_trip, lemma_number_round_trip, number_from_bincode_buffer, number_from_bytes,
    number_to_bincode_buffer, text_at_front, text_from_bincode, text_from_bytes,
    to_bincode_buffer, BincodeBuffer,
};
use crate::ffi_apis::constant_ffi::json::{current_build_info, BuildInfo, BuildInfoView};
use vstd::bytes::*;
use vstd::prelude::*;
use vstd::slice::slice_subrange;
use vstd::utf8::*;

verus! {

/// `buffer` holds the binary encoding of `text`, and reads back as `text`.
pub open spec fn exports_bincode_text(buffer: BincodeBuffer, text: Seq<char>) -> bool {
    &&& buffer.wf()
    &&& buffer.data is Some
    &&& buffer.bytes() == bincode_text(text)
    &&& text_from_bincode(buffer.bytes()) == Some(text)
}

/// The bytes of a build-info record: the bytes that its fields have when
/// exported one by one, in the record's order, with nothing between them.
pub open spec fn build_info_bincode(info: BuildInfoView) -> Seq<u8> {
    bincode_text(info.build_date) + bincode_text(info.commit_sha) + bincode_text(
        info.rustc_version,
    ) + bincode_text(info.cargo_target_triple) + bincode_text(info.system_info)
}

/// The build-info record at the front of a byte sequence: five texts in a
/// row. Bytes after the fifth do not count.
pub open spec fn build_info_from_bincode(bytes: Seq<u8>) -> Option<BuildInfoView> {
    match text_at_front(bytes) {
        None => None,
        Some((build_date, n1)) => match text_at_front(bytes.skip(n1)) {
            None => None,
            Some((commit_sha, n2)) => match text_at_front(bytes.skip(n1).skip(n2)) {
                None => None,
                Some((rustc_version, n3)) => match text_at_front(
                    bytes.skip(n1).skip(n2).skip(n3),
                ) {
                    None => None,
                    Some((cargo_target_triple, n4)) => match text_at_front(
                        bytes.skip(n1).skip(n2).skip(n3).skip(n4),
                    ) {
                        None => None,
                        Some((system_info, _)) => Some(
                            BuildInfoView {
                                build_date,
                                commit_sha,
                                rustc_version,
                                cargo_target_triple,
                                system_info,
                            },
                        ),
                    },
                },
            },
        },
    }
}

/// Every field of the record is short enough to be a string: its UTF-8
/// bytes can be counted in 64 bits.
pub open spec fn fields_fit(info: BuildInfoView) -> bool {
    &&& encode_utf8(info.build_date).len() <= u64::MAX
    &&& encode_utf8(info.commit_sha).len() <= u64::MAX
    &&& encode_utf8(info.rustc_version).len() <= u64::MAX
    &&& encode_utf8(info.cargo_target_triple).len() <= u64::MAX
    &&& encode_utf8(info.system_info).len() <= u64::MAX
}

/// A build-info record that was exported on the binary channel reads back
/// as itself, and each of its five fields comes back as what the field's
/// own export reads back as.
pub proof fn lemma_build_info_round_trip(info: BuildInfoView)
    requires
        fields_fit(info),
    ensures
        build_info_from_bincode(build_info_bincode(info)) == Some(info),
        text_from_bincode(bincode_text(info.build_date)) == Some(info.build_date),
        text_from_bincode(bincode_text(info.commit_sha)) == Some(info.commit_sha),
        text_from_bincode(bincode_text(info.rustc_version)) == Some(info.rustc_version),
        text_from_bincode(bincode_text(info.cargo_target_triple)) == Some(
            info.cargo_target_triple,
        ),
        text_from_bincode(bincode_text(info.system_info)) == Some(info.system_info),
{
    let e1 = bincode_text(info.build_date);
    let e2 = bincode_text(info.commit_sha);
    let e3 = bincode_text(info.rustc_version);
    let e4 = bincode_text(info.cargo_target_triple);
    let e5 = bincode_text(info.system_info);
    let bytes = build_info_bincode(info);
    let r1 = e2 + e3 + e4 + e5;
    let r2 = e3 + e4 + e5;
    let r3 = e4 + e5;
    let r4 = e5;
    assert(bytes =~= e1 + r1);
    assert(r1 =~= e2 + r2);
    assert(r2 =~= e3 + r3);
    assert(r3 =~= e4 + r4);
    assert(r4 =~= e5 + Seq::<u8>::empty());
    lemma_bincode_text_round_trip(info.build_date, r1);
    lemma_bincode_text_round_trip(info.commit_sha, r2);
    lemma_bincode_text_round_trip(info.rustc_version, r3);
    lemma_bincode_text_round_trip(info.cargo_target_triple, r4);
    lemma_bincode_text_round_trip(info.system_info, Seq::<u8>::empty());
    assert(bytes.skip(e1.len() as int) == r1);
    assert(r1.skip(e2.len() as int) == r2);
    assert(r2.skip(e3.len() as int) == r3);
    assert(r3.skip(e4.len() as int) == r4);
    lemma_bincode_text_alone(info.build_date);
    lemma_bincode_text_alone(info.commit_sha);
    lemma_bincode_text_alone(info.rustc_version);
    lemma_bincode_text_alone(info.cargo_target_triple);
    lemma_bincode_text_alone(info.system_info);
}

/// Encodes a build-info record. Each field is encoded as it is when exported
/// alone; the record is the five results in a row, and reads back as the
/// record.
pub fn build_info_to_bincode(info: &BuildInfo) -> (r: Result<
    Vec<u8>,
    bincode_next::error::EncodeError,
>)
    ensures
        r matches Ok(bytes) && bytes@ == build_info_bincode(info@) && build_info_from_bincode(
            bytes@,
        ) == Some(info@),
{
    let mut out = match bincode_encode_text(info.build_date.as_str()) {
        Ok(bytes) => bytes,
        Err(e) => { return Err(e); },
    };
    let commit_sha = match bincode_encode_text(info.commit_sha.as_str()) {
        Ok(bytes) => bytes,
        Err(e) => { return Err(e); },
    };
    let rustc_version = match bincode_encode_text(info.rustc_version.as_str()) {
        Ok(bytes) => bytes,
        Err(e) => { return Err(e); },
    };
    let cargo_target_triple = match bincode_encode_text(info.cargo_target_triple.as_str()) {
        Ok(bytes) => bytes,
        Err(e) => { return Err(e); },
    };
    let system_info = match bincode_encode_text(info.system_info.as_str()) {
        Ok(bytes) => bytes,
        Err(e) => { return Err(e); },
    };
    proof {
        assert(encode_utf8(info.build_date@).len() <= out@.len() == out.len());
        assert(encode_utf8(info.commit_sha@).len() <= commit_sha@.len() == commit_sha.len());
        assert(encode_utf8(info.rustc_version@).len() <= rustc_version@.len()
            == rustc_version.len());
        assert(encode_utf8(info.cargo_target_triple@).len() <= cargo_target_triple@.len()
            == cargo_target_triple.len());
        assert(encode_utf8(info.system_info@).len() <= system_info@.len() == system_info.len());
        lemma_build_info_round_trip(info@);
    }
    out.extend_from_slice(commit_sha.as_slice());
    out.extend_from_slice(rustc_version.as_slice());
    out.extend_from_slice(cargo_target_triple.as_slice());
    out.extend_from_slice(system_info.as_slice());
    Ok(out)
}

/// Reads a build-info record from a bincode buffer: five texts in a row.
///
/// Returns `None` on a null or empty buffer and where one of the five texts
/// falls short of the length it declares or is not valid UTF-8.
#[must_use]
pub fn build_info_from_bincode_buffer(buffer: &BincodeBuffer) -> (r: Option<BuildInfo>)
    ensures
        (match r {
            Some(info) => Some(info@),
            None => None,
        }) == build_info_from_bincode(buffer.bytes()),
{
    let bytes = buffer.as_slice();
    let (build_date, n1) = match text_from_bytes(bytes) {
        Some(read) => read,
        None => { return None; },
    };
    let bytes = slice_subrange(bytes, n1, bytes.len());
    let (commit_sha, n2) = match text_from_bytes(bytes) {
        Some(read) => read,
        None => { return None; },
    };
    let bytes = slice_subrange(bytes, n2, bytes.len());
    let (rustc_version, n3) = match text_from_bytes(bytes) {
        Some(read) => read,
        None => { return None; },
    };
    let bytes = slice_subrange(bytes, n3, bytes.len());
    let (cargo_target_triple, n4) = match text_from_bytes(bytes) {
        Some(read) => read,
        None => { return None; },
    };
    let bytes = slice_subrange(bytes, n4, bytes.len());
    let (system_info, _) = match text_from_bytes(bytes) {
        Some(read) => read,
        None => { return None; },
    };
    Some(BuildInfo { build_date, commit_sha, rustc_version, cargo_target_triple, system_info })
}

/// Exports a text on the binary channel.
fn export_bincode_text(text: &str) -> (buffer: BincodeBuffer)
    ensures
        exports_bincode_text(buffer, text@),
{
    let buffer = to_bincode_buffer(bincode_encode_text(text));
    proof {
        assert(encode_utf8(text@).len() <= buffer.data->0@.len() == buffer.data->0.len());
        lemma_bincode_text_alone(text@);
    }
    buffer
}

/// Returns all build information as a bincode buffer: what the five fields
/// are exported as one by one, in a row. The buffer reads back as the five
/// build strings.
/// The caller must free the returned buffer using `rssn_free_bincode_buffer`.
pub fn rssn_get_build_info_bincode() -> (buffer: BincodeBuffer)
    ensures
        buffer.wf(),
        buffer.data is Some,
        buffer.bytes() == bincode_text(BUILD_DATE@) + bincode_text(COMMIT_SHA@) + bincode_text(
            RUSTC_VERSION@,
        ) + bincode_text(CARGO_TARGET_TRIPLE@) + bincode_text(SYSTEM_INFO@),
        build_info_from_bincode(buffer.bytes()) == Some(current_build_info()),
{
    let info = BuildInfo::current();
    to_bincode_buffer(build_info_to_bincode(&info))
}

/// Returns the build date as a bincode buffer.
/// The caller must free the returned buffer using `rssn_free_bincode_buffer`.
pub fn rssn_get_build_date_bincode() -> (buffer: BincodeBuffer)
    ensures
        exports_bincode_text(buffer, BUILD_DATE@),
{
    export_bincode_text(get_build_date())
}

/// Returns the commit SHA as a bincode buffer.
/// The caller must free the returned buffer using `rssn_free_bincode_buffer`.
pub fn rssn_get_commit_sha_bincode() -> (buffer: BincodeBuffer)
    ensures
        exports_bincode_text(buffer, COMMIT_SHA@),
{
    export_bincode_text(get_commit_sha())
}

/// Returns the rustc version as a bincode buffer.
/// The caller must free the returned buffer using `rssn_free_bincode_buffer`.
pub fn rssn_get_rustc_version_bincode() -> (buffer: BincodeBuffer)
    ensures
        exports_bincode_text(buffer, RUSTC_VERSION@),
{
    export_bincode_text(get_rustc_version())
}

/// Returns the cargo target triple as a bincode buffer.
/// The caller must free the returned buffer using `rssn_free_bincode_buffer`.
pub fn rssn_get_cargo_target_triple_bincode() -> (buffer: BincodeBuffer)
    ensures
        exports_bincode_text(buffer, CARGO_TARGET_TRIPLE@),
{
    export_bincode_text(get_cargo_target_triple())
}

/// Returns the system info as a bincode buffer.
/// The caller must free the returned buffer using `rssn_free_bincode_buffer`.
pub fn rssn_get_system_info_bincode() -> (buffer: BincodeBuffer)
    ensures
        exports_bincode_text(buffer, SYSTEM_INFO@),
{
    export_bincode_text(get_system_info())
}

/// The bytes that the value held under `id` has on the binary channel: for a
/// number the eight bytes of its bit pattern, least significant first; for
/// a text its length prefix and its UTF-8 bytes.
pub open spec fn constant_bincode(id: Identifier) -> Seq<u8> {
    match native_value(id) {
        NativeValue::Number(bits) => spec_u64_to_le_bytes(bits),
        NativeValue::Text(text) => bincode_text(text),
    }
}

/// What a byte sequence holds for `id` on the binary channel: a number where
/// `id` names a number, a text where it names a text; none where the bytes
/// hold no such value at their front.
pub open spec fn constant_from_bincode(id: Identifier, bytes: Seq<u8>) -> Option<NativeValue> {
    match native_value(id) {
        NativeValue::Number(_) => match number_from_bytes(bytes) {
            Some(bits) => Some(NativeValue::Number(bits)),
            None => None,
        },
        NativeValue::Text(_) => match text_from_bincode(bytes) {
            Some(text) => Some(NativeValue::Text(text)),
            None => None,
        },
    }
}

/// The round trip on the binary channel: for every identifier of the
/// registry, what is exported for it reads back as the value held under it.
pub proof fn lemma_binary_round_trip(id: Identifier)
    ensures
        constant_from_bincode(id, constant_bincode(id)) == Some(native_value(id)),
{
    match native_value(id) {
        NativeValue::Number(bits) => {
            lemma_number_round_trip(bits);
        },
        NativeValue::Text(text) => {
            lemma_build_strings_vetted();
            assert(is_vetted_text(text));
            is_ascii_chars_encode_utf8(text);
            reveal_strlit("2023-10-24");
            reveal_strlit("a1b2c3d");
            reveal_strlit("1.70.0-nightly");
            reveal_strlit("x86_64-unknown-linux-gnu");
            reveal_strlit("Linux Arch Linux");
            lemma_bincode_text_alone(text);
        },
    }
}

/// Returns the value held under `id` as a bincode buffer, which reads back
/// as that value.
/// The caller must free the returned buffer using `rssn_free_bincode_buffer`.
pub fn rssn_get_constant_bincode(id: Identifier) -> (buffer: BincodeBuffer)
    ensures
        buffer.wf(),
        buffer.data is Some,
        buffer.bytes() == constant_bincode(id),
        constant_from_bincode(id, buffer.bytes()) == Some(native_value(id)),
{
    proof {
        lemma_binary_round_trip(id);
    }
    match get(id) {
        Value::Number(bits) => number_to_bincode_buffer(bits),
        Value::Text(text) => export_bincode_text(text.as_str()),
    }
}

/// Reads from a bincode buffer the kind of value that `id` names: a number
/// as its bit pattern, or a text.
///
/// Returns `None` on a null or empty buffer and on bytes that hold no such
/// value at their front.
#[must_use]
pub fn constant_from_bincode_buffer(id: Identifier, buffer: &BincodeBuffer) -> (r: Option<Value>)
    ensures
        (match r {
            Some(value) => Some(value@),
            None => None,
        }) == constant_from_bincode(id, buffer.bytes()),
{
    match get(id) {
        Value::Number(_) => match number_from_bincode_buffer(buffer) {
            Some(bits) => Some(Value::Number(bits)),
            None => None,
        },
        Value::Text(_) => match from_bincode_buffer(buffer) {
            Some(text) => Some(Value::Text(text)),
            None => None,
        },
    }
}

} // verus!
