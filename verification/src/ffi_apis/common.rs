//! What the three channels share: the owned C string and the owned byte
//! buffer that cross the boundary, and the conversions into and out of them.
//!
//! A pointer that may be null is an `Option` here: `None` is the null
//! pointer, `Some` owns or borrows the bytes that the pointer leads to.

use vstd::bytes::*;
use vstd::prelude::*;
use vstd::utf8::*;

verus! {

/// No byte of `bytes` is NUL.
pub open spec fn is_nul_free(bytes: Seq<u8>) -> bool {
    forall|i: int| 0 <= i < bytes.len() ==> #[trigger] bytes[i] != 0
}

/// `i` is the place of the first NUL of `buffer`.
pub open spec fn is_terminator(buffer: Seq<u8>, i: int) -> bool {
    &&& 0 <= i < buffer.len()
    &&& buffer[i] == 0
    &&& is_nul_free(buffer.subrange(0, i))
}

/// The bytes of `buffer` before its first NUL, if it holds one.
pub open spec fn c_str_content(buffer: Seq<u8>) -> Option<Seq<u8>> {
    if exists|i: int| is_terminator(buffer, i) {
        Some(buffer.subrange(0, choose|i: int| is_terminator(buffer, i)))
    } else {
        None
    }
}

/// The text that a borrowed C string stands for: the bytes before the first
/// NUL, read as UTF-8. There is none behind a null pointer, in a buffer
/// without a NUL, and where those bytes are not UTF-8.
pub open spec fn c_str_text(buffer: Option<Seq<u8>>) -> Option<Seq<char>> {
    match buffer {
        None => None,
        Some(bytes) => match c_str_content(bytes) {
            None => None,
            Some(content) => if valid_utf8(content) {
                Some(decode_utf8(content))
            } else {
                None
            },
        },
    }
}

/// A buffer has at most one first NUL.
pub proof fn lemma_terminator_unique(buffer: Seq<u8>, i: int, j: int)
    requires
        is_terminator(buffer, i),
        is_terminator(buffer, j),
    ensures
        i == j,
{
    if i < j {
        assert(buffer.subrange(0, j)[i] == buffer[i]);
    }
    if j < i {
        assert(buffer.subrange(0, i)[j] == buffer[j]);
    }
}

/// The content of a buffer whose first NUL stands at `i` is what precedes it.
pub proof fn lemma_content_at(buffer: Seq<u8>, i: int)
    requires
        is_terminator(buffer, i),
    ensures
        c_str_content(buffer) == Some(buffer.subrange(0, i)),
{
    let j = choose|j: int| is_terminator(buffer, j);
    lemma_terminator_unique(buffer, i, j);
}

/// A text that was exported as a C string reads back as itself: the text of
/// its UTF-8 bytes followed by a NUL is the text again.
pub proof fn lemma_c_string_round_trip(text: Seq<char>)
    requires
        is_nul_free(encode_utf8(text)),
    ensures
        c_str_text(Some(encode_utf8(text).push(0))) == Some(text),
{
    let content = encode_utf8(text);
    let buffer = content.push(0);
    assert(buffer.subrange(0, content.len() as int) =~= content);
    assert(is_terminator(buffer, content.len() as int));
    lemma_content_at(buffer, content.len() as int);
    encode_utf8_valid_utf8(text);
    encode_utf8_decode_utf8(text);
}

/// An owned, NUL-terminated byte string: what a non-null `char*` handed to a
/// foreign caller leads to. Its view is the content, without the terminator.
#[derive(Debug)]
pub struct ExportedString {
    bytes: Vec<u8>,
}

impl View for ExportedString {
    type V = Seq<u8>;

    closed spec fn view(&self) -> Seq<u8> {
        self.bytes@.drop_last()
    }
}

impl ExportedString {
    #[verifier::type_invariant]
    spec fn terminated(&self) -> bool {
        &&& self.bytes@.len() > 0
        &&& self.bytes@.last() == 0
        &&& is_nul_free(self.bytes@.drop_last())
    }

    /// The content followed by the terminating NUL, which is the only NUL.
    pub fn as_bytes_with_nul(&self) -> (bytes: &[u8])
        ensures
            bytes@ == self@.push(0),
            is_nul_free(self@),
    {
        proof {
            use_type_invariant(self);
            assert(self.bytes@ =~= self.bytes@.drop_last().push(0));
        }
        self.bytes.as_slice()
    }

    /// The content, without the terminating NUL.
    pub fn as_bytes(&self) -> (bytes: &[u8])
        ensures
            bytes@ == self@,
            is_nul_free(self@),
    {
        proof {
            use_type_invariant(self);
        }
        let n = self.bytes.len();
        vstd::slice::slice_subrange(self.bytes.as_slice(), 0, n - 1)
    }

    /// Gives up the string for its bytes, terminator included.
    pub fn into_bytes_with_nul(self) -> (bytes: Vec<u8>)
        ensures
            bytes@ == self@.push(0),
            is_nul_free(self@),
    {
        proof {
            use_type_invariant(&self);
            assert(self.bytes@ =~= self.bytes@.drop_last().push(0));
        }
        self.bytes
    }
}

/// Helper function to create a C string from a Rust string.
///
/// Returns `None`, the null pointer, exactly when the text holds a NUL byte;
/// otherwise the string's content is the UTF-8 bytes of the text.
#[must_use]
pub fn to_c_string(s: String) -> (r: Option<ExportedString>)
    ensures
        content_of(r) == c_string_of(s@),
{
    let text = s.as_str();
    let bytes = text.as_bytes();
    let mut out: Vec<u8> = Vec::new();
    let mut i: usize = 0;
    while i < bytes.len()
        invariant
            i <= bytes@.len(),
            bytes@ == encode_utf8(s@),
            out@ == bytes@.subrange(0, i as int),
            is_nul_free(out@),
        decreases bytes@.len() - i,
    {
        let b = bytes[i];
        if b == 0 {
            return None;
        }
        out.push(b);
        assert(out@ =~= bytes@.subrange(0, i + 1));
        i += 1;
    }
    assert(out@ =~= bytes@);
    out.push(0);
    assert(out@.drop_last() =~= bytes@);
    Some(ExportedString { bytes: out })
}

/// `core::str::from_utf8`: the bytes as a text, where they are valid UTF-8.
/// The contract claims what std documents: the call succeeds exactly on
/// valid UTF-8, and the text it returns is the one those bytes encode.
#[verifier::external_body]
fn utf8_text(bytes: &[u8]) -> (r: Option<&str>)
    ensures
        r is Some <==> valid_utf8(bytes@),
        r matches Some(text) ==> text@ == decode_utf8(bytes@),
{
    core::str::from_utf8(bytes).ok()
}

/// Helper to convert a borrowed C string to a Rust string slice.
///
/// `s` is the buffer that the pointer leads to, or `None` for a null
/// pointer. Returns `None` if the pointer is null, if the buffer holds no
/// NUL, or if the bytes before the first NUL are not valid UTF-8. Nothing
/// beyond the buffer is read.
#[must_use]
pub fn c_str_to_str<'a>(s: Option<&'a [u8]>) -> (r: Option<&'a str>)
    ensures
        (match r {
            Some(text) => Some(text@),
            None => None,
        }) == c_str_text(
            match s {
                Some(buffer) => Some(buffer@),
                None => None,
            },
        ),
{
    match s {
        None => None,
        Some(buffer) => {
            let mut i: usize = 0;
            while i < buffer.len() && buffer[i] != 0
                invariant
                    i <= buffer@.len(),
                    is_nul_free(buffer@.subrange(0, i as int)),
                decreases buffer@.len() - i,
            {
                assert(is_nul_free(buffer@.subrange(0, i + 1))) by {
                    assert forall|k: int| 0 <= k < i + 1 implies #[trigger] buffer@.subrange(
                        0,
                        i + 1,
                    )[k] != 0 by {
                        if k < i {
                            assert(buffer@.subrange(0, i as int)[k] == buffer@[k]);
                        }
                    }
                }
                i += 1;
            }
            if i == buffer.len() {
                proof {
                    assert(buffer@.subrange(0, i as int) =~= buffer@);
                    assert forall|k: int| !is_terminator(buffer@, k) by {
                        if 0 <= k < buffer@.len() {
                            assert(buffer@[k] != 0);
                        }
                    }
                }
                None
            } else {
                proof {
                    lemma_content_at(buffer@, i as int);
                }
                utf8_text(vstd::slice::slice_subrange(buffer, 0, i))
            }
        },
    }
}

/// The content of an exported string, or `None` for the null pointer.
pub open spec fn content_of(s: Option<ExportedString>) -> Option<Seq<u8>> {
    match s {
        Some(e) => Some(e@),
        None => None,
    }
}

/// The content of the C string that a text is exported as: its UTF-8 bytes,
/// or none where they hold a NUL.
pub open spec fn c_string_of(text: Seq<char>) -> Option<Seq<u8>> {
    if is_nul_free(encode_utf8(text)) {
        Some(encode_utf8(text))
    } else {
        None
    }
}

/// The view of an optional text.
pub open spec fn text_of(text: Option<String>) -> Option<Seq<char>> {
    match text {
        Some(t) => Some(t@),
        None => None,
    }
}

/// A buffer containing binary data from bincode serialization.
///
/// `data` is `None` for the null pointer. A buffer that was handed out stays
/// with the caller until it is given to `rssn_free_bincode_buffer`.
#[derive(Debug)]
pub struct BincodeBuffer {
    /// The binary data, or `None` for the null pointer.
    pub data: Option<Vec<u8>>,
    /// Length of the binary data in bytes.
    pub len: usize,
}

impl BincodeBuffer {
    /// `len` counts the bytes of `data`, and is 0 behind a null pointer.
    pub open spec fn wf(&self) -> bool {
        match self.data {
            None => self.len == 0,
            Some(bytes) => self.len == bytes@.len(),
        }
    }

    /// The buffer stands for "no value": null data or no bytes.
    pub open spec fn spec_is_null(&self) -> bool {
        self.data is None || self.len == 0
    }

    /// The bytes that the buffer holds; none where it is null.
    pub open spec fn bytes(&self) -> Seq<u8> {
        if self.spec_is_null() {
            Seq::empty()
        } else {
            self.data->0@
        }
    }

    /// Creates a new empty buffer: null data, length 0.
    #[must_use]
    pub fn empty() -> (buffer: Self)
        ensures
            buffer.data is None,
            buffer.len == 0,
            buffer.wf(),
            buffer.spec_is_null(),
    {
        Self { data: None, len: 0 }
    }

    /// Creates a buffer from a `Vec<u8>`: it owns exactly those bytes.
    #[must_use]
    pub fn from_vec(bytes: Vec<u8>) -> (buffer: Self)
        ensures
            buffer.data == Some(bytes),
            buffer.len == bytes@.len(),
            buffer.wf(),
            buffer.bytes() == bytes@,
    {
        let len = bytes.len();
        let buffer = Self { data: Some(bytes), len };
        assert(buffer.bytes() =~= bytes@);
        buffer
    }

    /// Checks if the buffer is null/empty.
    #[must_use]
    pub fn is_null(&self) -> (null: bool)
        ensures
            null == self.spec_is_null(),
    {
        self.data.is_none() || self.len == 0
    }

    /// The bytes of the buffer as a slice; the empty slice where it is null.
    #[must_use]
    pub fn as_slice(&self) -> (slice: &[u8])
        ensures
            slice@ == self.bytes(),
            self.wf() ==> slice@.len() == self.len,
    {
        if self.len == 0 {
            let none: &[u8] = &[];
            assert(none@ =~= Seq::<u8>::empty());
            none
        } else {
            match &self.data {
                Some(bytes) => bytes.as_slice(),
                None => {
                    let none: &[u8] = &[];
                    assert(none@ =~= Seq::<u8>::empty());
                    none
                },
            }
        }
    }
}

/// Frees a string allocated by an export function. The string is given up
/// with the call; a null pointer is accepted and nothing happens.
pub fn rssn_free_string(s: Option<ExportedString>) {
    let _ = s;
}

/// Frees a bincode buffer allocated by an export function. The buffer is
/// given up with the call; a null buffer is accepted and nothing happens.
pub fn rssn_free_bincode_buffer(buffer: BincodeBuffer) {
    let _ = buffer;
}

/// The error of `serde_json`, carried through unread.
#[verifier::external_type_specification]
#[verifier::external_body]
pub struct ExJsonError(serde_json::Error);

/// The encoding error of `bincode_next`, carried through unread.
#[verifier::external_type_specification]
#[verifier::external_body]
pub struct ExEncodeError(bincode_next::error::EncodeError);

/// The decoding error of `bincode_next`, carried through unread.
#[verifier::external_type_specification]
#[verifier::external_body]
pub struct ExDecodeError(bincode_next::error::DecodeError);

/// The JSON text that `serde_json::to_string` writes for a text.
pub uninterp spec fn json_text(text: Seq<char>) -> Seq<char>;

/// The text that `serde_json::from_str` reads out of a JSON text, if it
/// accepts it as one JSON string.
pub uninterp spec fn json_parsed_text(json: Seq<char>) -> Option<Seq<char>>;

/// `serde_json::to_string` on a text. The contract claims that the call
/// succeeds, as serde_json documents for a value that is neither a map nor
/// has a serializer of its own that fails, and names the text it returns.
#[verifier::external_body]
pub(crate) fn json_encode_text(text: &str) -> (r: Result<String, serde_json::Error>)
    ensures
        r is Ok,
        r matches Ok(json) ==> json@ == json_text(text@),
{
    serde_json::to_string(text)
}

/// `serde_json::from_str` for a `String`. The contract names the outcome:
/// the text read, or none where the input is rejected.
#[verifier::external_body]
pub(crate) fn json_decode_text(json: &str) -> (r: Result<String, serde_json::Error>)
    ensures
        match r {
            Ok(text) => json_parsed_text(json@) == Some(text@),
            Err(_) => json_parsed_text(json@) is None,
        },
{
    serde_json::from_str::<String>(json)
}

/// `bincode_next::serde::encode_to_vec` on a text, under
/// `bincode_next::config::standard()`. The contract claims that the call
/// succeeds, since it writes into a vector that grows, and that it returns
/// what the crate's format description gives for a string: the length of
/// the UTF-8 bytes as a variable-length integer, then those bytes.
#[verifier::external_body]
pub(crate) fn bincode_encode_text(text: &str) -> (r: Result<
    Vec<u8>,
    bincode_next::error::EncodeError,
>)
    ensures
        r is Ok,
        r matches Ok(bytes) ==> bytes@ == bincode_text(text@),
{
    bincode_next::serde::encode_to_vec(text, bincode_next::config::standard())
}

/// `bincode_next::serde::decode_from_slice` for a `String`, under
/// `bincode_next::config::standard()`. The call reserves the declared
/// length before it reads, so it is made only on input that holds as many
/// bytes as it declares. The contract claims that, on such input, the call
/// reads the length prefix and the declared bytes from the front, succeeds
/// exactly where those bytes are valid UTF-8, and returns their text with
/// the number of bytes read; what follows them is left unread.
#[verifier::external_body]
pub(crate) fn bincode_decode_text(bytes: &[u8]) -> (r: Result<
    (String, usize),
    bincode_next::error::DecodeError,
>)
    requires
        text_frame_fits(bytes@),
    ensures
        match r {
            Ok(read) => text_at_front(bytes@) == Some((read.0@, read.1 as int)),
            Err(_) => text_at_front(bytes@) is None,
        },
{
    bincode_next::serde::decode_from_slice::<String, _>(bytes, bincode_next::config::standard())
}

/// Helper function to hand out JSON as a C string, given what the JSON
/// serializer returned.
///
/// Returns `None`, the null pointer, on a serializer error and where the
/// JSON text holds a NUL byte.
#[must_use]
pub fn to_json_string(encoded: Result<String, serde_json::Error>) -> (r: Option<ExportedString>)
    ensures
        match encoded {
            Ok(json) => content_of(r) == c_string_of(json@),
            Err(_) => r is None,
        },
{
    match encoded {
        Ok(json) => to_c_string(json),
        Err(_) => None,
    }
}

/// What `from_json_string` reads from a borrowed C string: the text of the
/// C string, parsed as one JSON string.
pub open spec fn json_string_text(buffer: Option<Seq<u8>>) -> Option<Seq<char>> {
    match c_str_text(buffer) {
        None => None,
        Some(json) => json_parsed_text(json),
    }
}

/// Reading an exported JSON string is parsing the JSON text that was
/// exported: the C string in between changes nothing.
pub proof fn lemma_json_export_reads_back(json: Seq<char>)
    requires
        is_nul_free(encode_utf8(json)),
    ensures
        json_string_text(Some(encode_utf8(json).push(0))) == json_parsed_text(json),
{
    lemma_c_string_round_trip(json);
}

/// Helper function to read a text from a JSON C string.
///
/// `json` is the buffer that the pointer leads to, or `None` for a null
/// pointer. Returns `None` on a null pointer, on a buffer without a NUL, on
/// bytes that are not UTF-8 and on text that is not one JSON string.
#[must_use]
pub fn from_json_string(json: Option<&[u8]>) -> (r: Option<String>)
    ensures
        text_of(r) == json_string_text(
            match json {
                Some(buffer) => Some(buffer@),
                None => None,
            },
        ),
{
    match c_str_to_str(json) {
        None => None,
        Some(text) => match json_decode_text(text) {
            Ok(value) => Some(value),
            Err(_) => None,
        },
    }
}

/// Helper function to hand out encoded bytes as a buffer, given what the
/// binary encoder returned.
///
/// Returns the empty buffer on an encoder error.
#[must_use]
pub fn to_bincode_buffer(encoded: Result<Vec<u8>, bincode_next::error::EncodeError>) -> (buffer:
    BincodeBuffer)
    ensures
        buffer.wf(),
        match encoded {
            Ok(bytes) => buffer.data == Some(bytes) && buffer.bytes() == bytes@,
            Err(_) => buffer.data is None && buffer.len == 0,
        },
{
    match encoded {
        Ok(bytes) => BincodeBuffer::from_vec(bytes),
        Err(_) => BincodeBuffer::empty(),
    }
}

/// The length prefix at the front of an encoded text: how many bytes the
/// prefix takes and how many bytes of text it declares. A first byte up to
/// 250 is the length itself; 251, 252 and 253 announce a length of two, four
/// and eight bytes, least significant byte first; no other first byte starts
/// a length.
pub open spec fn declared_text_len(bytes: Seq<u8>) -> Option<(int, int)> {
    if bytes.len() == 0 {
        None
    } else if bytes[0] <= 250 {
        Some((1, bytes[0] as int))
    } else if bytes[0] == 251 && bytes.len() >= 3 {
        Some((3, spec_u16_from_le_bytes(bytes.subrange(1, 3)) as int))
    } else if bytes[0] == 252 && bytes.len() >= 5 {
        Some((5, spec_u32_from_le_bytes(bytes.subrange(1, 5)) as int))
    } else if bytes[0] == 253 && bytes.len() >= 9 {
        Some((9, spec_u64_from_le_bytes(bytes.subrange(1, 9)) as int))
    } else {
        None
    }
}

/// The input holds a whole length prefix and as many bytes after it as the
/// prefix declares.
pub open spec fn text_frame_fits(bytes: Seq<u8>) -> bool {
    match declared_text_len(bytes) {
        Some((prefix, declared)) => prefix + declared <= bytes.len(),
        None => false,
    }
}

/// Tests whether `bytes` holds a whole length prefix and as many bytes after
/// it as the prefix declares.
pub fn holds_whole_text(bytes: &[u8]) -> (fits: bool)
    ensures
        fits == text_frame_fits(bytes@),
{
    let n = bytes.len();
    if n == 0 {
        return false;
    }
    let first = bytes[0];
    if first <= 250 {
        first as usize <= n - 1
    } else if first == 251 {
        if n < 3 {
            return false;
        }
        let declared = u16_from_le_bytes(vstd::slice::slice_subrange(bytes, 1, 3));
        declared as u64 <= (n - 3) as u64
    } else if first == 252 {
        if n < 5 {
            return false;
        }
        let declared = u32_from_le_bytes(vstd::slice::slice_subrange(bytes, 1, 5));
        declared as u64 <= (n - 5) as u64
    } else if first == 253 {
        if n < 9 {
            return false;
        }
        let declared = u64_from_le_bytes(vstd::slice::slice_subrange(bytes, 1, 9));
        declared <= (n - 9) as u64
    } else {
        false
    }
}

/// The length prefix of the binary encoding for a length `n`: one byte for a
/// length under 251; else the byte 251, 252 or 253 and the length in two,
/// four or eight bytes, least significant first, in the shortest form that
/// holds it.
pub open spec fn length_prefix(n: nat) -> Seq<u8> {
    if n < 251 {
        seq![n as u8]
    } else if n < 0x1_0000 {
        seq![251u8] + spec_u16_to_le_bytes(n as u16)
    } else if n < 0x1_0000_0000 {
        seq![252u8] + spec_u32_to_le_bytes(n as u32)
    } else {
        seq![253u8] + spec_u64_to_le_bytes(n as u64)
    }
}

/// The binary encoding of a text: the length of its UTF-8 bytes as a length
/// prefix, then those bytes.
pub open spec fn bincode_text(text: Seq<char>) -> Seq<u8> {
    length_prefix(encode_utf8(text).len()) + encode_utf8(text)
}

/// The text at the front of a byte sequence, with the number of bytes it
/// takes: a whole length prefix, then as many bytes as it declares, which
/// are valid UTF-8. Bytes after them do not count.
pub open spec fn text_at_front(bytes: Seq<u8>) -> Option<(Seq<char>, int)> {
    match declared_text_len(bytes) {
        Some((prefix, declared)) => if prefix + declared <= bytes.len() && valid_utf8(
            bytes.subrange(prefix, prefix + declared),
        ) {
            Some((decode_utf8(bytes.subrange(prefix, prefix + declared)), prefix + declared))
        } else {
            None
        },
        None => None,
    }
}

/// What `from_bincode_buffer` reads from the bytes of a buffer: the text at
/// their front.
pub open spec fn text_from_bincode(bytes: Seq<u8>) -> Option<Seq<char>> {
    match text_at_front(bytes) {
        Some((text, _)) => Some(text),
        None => None,
    }
}

/// A length prefix declares the length it was made for, whatever follows it.
pub proof fn lemma_length_prefix_declares(n: nat, tail: Seq<u8>)
    requires
        n <= u64::MAX,
    ensures
        1 <= length_prefix(n).len() <= 9,
        declared_text_len(length_prefix(n) + tail) == Some((length_prefix(n).len() as int, n as int)),
{
    lemma_auto_spec_u16_to_from_le_bytes();
    lemma_auto_spec_u32_to_from_le_bytes();
    lemma_auto_spec_u64_to_from_le_bytes();
    let prefix = length_prefix(n);
    let bytes = prefix + tail;
    if n < 251 {
        assert(bytes[0] == n as u8);
    } else if n < 0x1_0000 {
        assert(spec_u16_to_le_bytes(n as u16).len() == 2);
        assert(bytes[0] == 251);
        assert(bytes.subrange(1, 3) =~= spec_u16_to_le_bytes(n as u16));
    } else if n < 0x1_0000_0000 {
        assert(spec_u32_to_le_bytes(n as u32).len() == 4);
        assert(bytes[0] == 252);
        assert(bytes.subrange(1, 5) =~= spec_u32_to_le_bytes(n as u32));
    } else {
        assert(spec_u64_to_le_bytes(n as u64).len() == 8);
        assert(bytes[0] == 253);
        assert(bytes.subrange(1, 9) =~= spec_u64_to_le_bytes(n as u64));
    }
}

/// A text that was exported on the binary channel reads back as itself from
/// the front of any bytes that start with the export, and the reading takes
/// exactly the bytes of the export: what follows them has no part in it.
pub proof fn lemma_bincode_text_round_trip(text: Seq<char>, rest: Seq<u8>)
    requires
        encode_utf8(text).len() <= u64::MAX,
    ensures
        text_at_front(bincode_text(text) + rest) == Some((text, bincode_text(text).len() as int)),
        text_from_bincode(bincode_text(text) + rest) == Some(text),
        (bincode_text(text) + rest).subrange(
            bincode_text(text).len() as int,
            (bincode_text(text) + rest).len() as int,
        ) == rest,
{
    let payload = encode_utf8(text);
    let prefix = length_prefix(payload.len());
    let bytes = bincode_text(text) + rest;
    lemma_length_prefix_declares(payload.len(), payload + rest);
    assert(bytes =~= prefix + (payload + rest));
    assert(bytes.subrange(prefix.len() as int, (prefix.len() + payload.len()) as int) =~= payload);
    assert(bytes.subrange(bincode_text(text).len() as int, bytes.len() as int) =~= rest);
    encode_utf8_valid_utf8(text);
    encode_utf8_decode_utf8(text);
}

/// A text that was exported on the binary channel reads back as itself.
pub proof fn lemma_bincode_text_alone(text: Seq<char>)
    requires
        encode_utf8(text).len() <= u64::MAX,
    ensures
        text_from_bincode(bincode_text(text)) == Some(text),
{
    lemma_bincode_text_round_trip(text, Seq::empty());
    assert(bincode_text(text) + Seq::<u8>::empty() =~= bincode_text(text));
}

/// Reads the text at the front of `bytes`, and says how many bytes it takes.
///
/// Returns `None` on bytes that fall short of the length they declare, and
/// on bytes that are not valid UTF-8. The decoder is called only on bytes
/// that hold as many as they declare.
#[must_use]
pub fn text_from_bytes(bytes: &[u8]) -> (r: Option<(String, usize)>)
    ensures
        match r {
            Some(read) => text_at_front(bytes@) == Some((read.0@, read.1 as int)),
            None => text_at_front(bytes@) is None,
        },
{
    if !holds_whole_text(bytes) {
        return None;
    }
    match bincode_decode_text(bytes) {
        Ok(read) => Some(read),
        Err(_) => None,
    }
}

/// Helper function to read a text from a bincode buffer.
///
/// Returns `None` on a null or empty buffer, on bytes that fall short of the
/// length they declare, and on bytes that are not valid UTF-8.
#[must_use]
pub fn from_bincode_buffer(buffer: &BincodeBuffer) -> (r: Option<String>)
    ensures
        text_of(r) == text_from_bincode(buffer.bytes()),
{
    if buffer.is_null() {
        return None;
    }
    match text_from_bytes(buffer.as_slice()) {
        Some(read) => Some(read.0),
        None => None,
    }
}

/// The number that the front of a byte sequence encodes: its first eight
/// bytes, least significant first, are the bit pattern. Fewer than eight
/// bytes encode none.
pub open spec fn number_from_bytes(bytes: Seq<u8>) -> Option<u64> {
    if bytes.len() >= 8 {
        Some(spec_u64_from_le_bytes(bytes.subrange(0, 8)))
    } else {
        None
    }
}

/// Encodes a number, given as the bit pattern of its double, for the binary
/// channel: the eight bytes of the pattern, least significant first.
#[must_use]
pub fn number_to_bincode_buffer(bits: u64) -> (buffer: BincodeBuffer)
    ensures
        buffer.wf(),
        buffer.len == 8,
        buffer.bytes() == spec_u64_to_le_bytes(bits),
        number_from_bytes(buffer.bytes()) == Some(bits),
{
    proof {
        lemma_number_round_trip(bits);
    }
    BincodeBuffer::from_vec(u64_to_le_bytes(bits))
}

/// Reads a number, as the bit pattern of its double, from a bincode buffer.
///
/// Returns `None` on a null buffer and on fewer than eight bytes; bytes
/// after the eighth are left unread.
#[must_use]
pub fn number_from_bincode_buffer(buffer: &BincodeBuffer) -> (r: Option<u64>)
    ensures
        r == number_from_bytes(buffer.bytes()),
{
    let slice = buffer.as_slice();
    if slice.len() < 8 {
        None
    } else {
        Some(u64_from_le_bytes(vstd::slice::slice_subrange(slice, 0, 8)))
    }
}

/// A number that was exported on the binary channel reads back as itself,
/// bit for bit.
pub proof fn lemma_number_round_trip(bits: u64)
    ensures
        spec_u64_to_le_bytes(bits).len() == 8,
        number_from_bytes(spec_u64_to_le_bytes(bits)) == Some(bits),
{
    lemma_auto_spec_u64_to_from_le_bytes();
    let bytes = spec_u64_to_le_bytes(bits);
    assert(bytes.subrange(0, 8) =~= bytes);
}

} // verus!
