//! Reversible payload encoding for outbound messages.
//!
//! A message below the size threshold travels as its raw UTF-8 bytes. At or
//! above the threshold a gzip transform is attempted; the transformed bytes
//! are kept only when they are strictly smaller than the raw bytes, so the
//! returned flag always tells the receiver exactly how to invert the
//! encoding. Compression failure is never surfaced: the encoder falls back
//! to the raw bytes with the flag cleared.

use vstd::prelude::*;
use vstd::string::StringSliceAdditionalSpecFns;
use vstd::string::StrSliceExecFns;

verus! {

/// The minimum byte length at which compression is attempted at all.
pub const COMPRESSION_THRESHOLD: usize = 1024;

/// What gzip decompression yields on the given bytes: the decompressed
/// contents, or `None` when the stream is malformed or truncated.
pub uninterp spec fn gunzip(data: Seq<u8>) -> Option<Seq<u8>>;

/// The gzip stream that fast-level compression emits for the given bytes.
/// The stream is a function of the input alone: the header is fixed (zero
/// timestamp, a constant operating-system byte chosen for reproducible
/// streams) and the compression level is pinned.
pub uninterp spec fn gzip_fast(data: Seq<u8>) -> Seq<u8>;

/// Whether a payload with its transform flag decodes back to `msg`.
pub open spec fn decodes_back(payload: Seq<u8>, transformed: bool, msg: Seq<char>) -> bool {
    if transformed {
        match gunzip(payload) {
            Some(raw) => vstd::utf8::valid_utf8(raw) && vstd::utf8::decode_utf8(raw) == msg,
            None => false,
        }
    } else {
        vstd::utf8::valid_utf8(payload) && vstd::utf8::decode_utf8(payload) == msg
    }
}

/// Why a payload could not be decoded back into a message.
#[derive(Debug, Clone)]
pub enum DecodeError {
    /// The bytes to interpret as text were not valid UTF-8; carries the
    /// underlying cause, suitable for logging.
    InvalidUtf8(String),
    /// The compressed stream was malformed or truncated; carries the
    /// underlying cause, suitable for logging.
    CorruptStream(String),
}

impl DecodeError {
    /// A human-readable description of the failure.
    pub fn message(&self) -> (r: String)
        ensures
            r@ == (match self {
                DecodeError::InvalidUtf8(m) => m@,
                DecodeError::CorruptStream(m) => m@,
            }),
    {
        match self {
            DecodeError::InvalidUtf8(m) => m.clone(),
            DecodeError::CorruptStream(m) => m.clone(),
        }
    }
}

/// Relies on flate2's write::GzEncoder at fast level with a `Vec` sink:
/// writing and finishing such an encoder cannot fail, the emitted stream
/// depends on the bytes written alone, and decompressing it yields exactly
/// those bytes. The error arms below keep the fallback policy visible,
/// though a `Vec`-backed encoder does not take them.
#[verifier::external_body]
fn gzip_compress(data: &[u8]) -> (r: Option<Vec<u8>>)
    ensures
        r is Some,
        r matches Some(c) ==> c@ == gzip_fast(data@),
        r matches Some(c) ==> gunzip(c@) == Some(data@),
{
    let mut encoder = flate2::write::GzEncoder::new(Vec::new(), flate2::Compression::fast());
    if std::io::Write::write_all(&mut encoder, data).is_ok() {
        encoder.finish().ok()
    } else {
        None
    }
}

/// Relies on flate2's read::GzDecoder: reading it to the end yields the
/// decompressed contents of a well-formed stream, and an error on a
/// malformed or truncated one.
#[verifier::external_body]
fn gzip_decompress(data: &[u8]) -> (r: Result<Vec<u8>, String>)
    ensures
        match r {
            Ok(v) => gunzip(data@) == Some(v@),
            Err(_) => gunzip(data@) is None,
        },
{
    let mut decoder = flate2::read::GzDecoder::new(data);
    let mut out = Vec::new();
    match std::io::Read::read_to_end(&mut decoder, &mut out) {
        Ok(_) => Ok(out),
        Err(e) => Err(format!("{}", e)),
    }
}

/// Relies on String::from_utf8: succeeds with the decoded text exactly when
/// the bytes are valid UTF-8.
#[verifier::external_body]
fn utf8_to_string(data: &[u8]) -> (r: Result<String, String>)
    ensures
        match r {
            Ok(s) => vstd::utf8::valid_utf8(data@) && s@ == vstd::utf8::decode_utf8(data@),
            Err(_) => !vstd::utf8::valid_utf8(data@),
        },
{
    match String::from_utf8(data.to_vec()) {
        Ok(s) => Ok(s),
        Err(e) => Err(format!("{}", e)),
    }
}

/// Keep the transformed bytes only when the transform succeeded and made the
/// payload strictly smaller; otherwise fall back to the raw bytes with the
/// flag cleared.
pub fn choose_payload(raw: Vec<u8>, transformed: Option<Vec<u8>>) -> (r: (Vec<u8>, bool))
    ensures
        r.1 == (transformed matches Some(c) && c@.len() < raw@.len()),
        r.1 ==> (transformed matches Some(c) && r.0 == c),
        !r.1 ==> r.0 == raw,
{
    match transformed {
        Some(c) => {
            if c.len() < raw.len() {
                (c, true)
            } else {
                (raw, false)
            }
        },
        None => (raw, false),
    }
}

/// Encode a message for transmission: raw UTF-8 bytes below the threshold,
/// and at or above it the gzip transform when (and only when) it makes the
/// payload strictly smaller. The flag says whether the transform was kept,
/// and both flag and payload are functions of the message alone, so
/// repeated calls on one message agree.
pub fn maybe_compress(msg: &str) -> (r: (Vec<u8>, bool))
    ensures
        decodes_back(r.0@, r.1, msg@),
        !r.1 ==> r.0@ == msg.spec_bytes(),
        r.1 ==> r.0@ == gzip_fast(msg.spec_bytes()),
        r.1 ==> r.0@.len() < msg.spec_bytes().len(),
        msg.spec_bytes().len() < COMPRESSION_THRESHOLD ==> !r.1,
        msg.spec_bytes().len() >= COMPRESSION_THRESHOLD ==> r.1 == (gzip_fast(
            msg.spec_bytes(),
        ).len() < msg.spec_bytes().len()),
{
    broadcast use vstd::utf8::encode_utf8_valid_utf8, vstd::utf8::encode_utf8_decode_utf8;

    let raw = msg.as_bytes_vec();
    if raw.len() < COMPRESSION_THRESHOLD {
        (raw, false)
    } else {
        let transformed = gzip_compress(raw.as_slice());
        choose_payload(raw, transformed)
    }
}

/// Decode a payload back into the original message, inverting the transform
/// when the flag says it was applied. Fails with `CorruptStream` on a
/// malformed compressed stream, and with `InvalidUtf8` when the bytes to
/// interpret as text are not valid UTF-8.
pub fn maybe_decompress(data: &[u8], was_compressed: bool) -> (r: Result<String, DecodeError>)
    ensures
        match r {
            Ok(s) => decodes_back(data@, was_compressed, s@),
            Err(e) => match e {
                DecodeError::CorruptStream(_) => was_compressed && gunzip(data@) is None,
                DecodeError::InvalidUtf8(_) => {
                    if was_compressed {
                        (gunzip(data@) matches Some(raw) && !vstd::utf8::valid_utf8(raw))
                    } else {
                        !vstd::utf8::valid_utf8(data@)
                    }
                },
            },
        },
{
    if !was_compressed {
        match utf8_to_string(data) {
            Ok(s) => Ok(s),
            Err(cause) => Err(DecodeError::InvalidUtf8(cause)),
        }
    } else {
        match gzip_decompress(data) {
            Ok(raw) => match utf8_to_string(raw.as_slice()) {
                Ok(s) => Ok(s),
                Err(cause) => Err(DecodeError::InvalidUtf8(cause)),
            },
            Err(cause) => Err(DecodeError::CorruptStream(cause)),
        }
    }
}

/// Round-trip law: a payload and flag produced for a message, as
/// `maybe_compress` ensures them, rule out every error case of
/// `maybe_decompress` and decode back to that message and to no other, so
/// decoding what was encoded always succeeds and reconstructs the input
/// exactly.
pub proof fn lemma_round_trip(payload: Seq<u8>, transformed: bool, msg: Seq<char>)
    requires
        decodes_back(payload, transformed, msg),
    ensures
        transformed ==> gunzip(payload) is Some,
        transformed ==> vstd::utf8::valid_utf8(gunzip(payload)->0),
        !transformed ==> vstd::utf8::valid_utf8(payload),
        forall|other: Seq<char>| #[trigger] decodes_back(payload, transformed, other)
            ==> other == msg,
{
}

} // verus!
