//! Input validation for the annotation editor's commands: cheap guards
//! against malformed or oversized payloads before anything reaches disk.
use vstd::prelude::*;

use crate::image_codec::png_signature;
use crate::text::{decimal, push_decimal, push_str};

verus! {

/// Maximum accepted size of a PNG payload: 16 MiB.
pub const MAX_PNG_BYTES: usize = 16777216;

/// Maximum accepted size of a serialized annotation state: 1 MiB.
pub const MAX_STATE_JSON_BYTES: usize = 1048576;

/// The only annotation-state schema version understood.
pub const STATE_VERSION: u32 = 1;

/// Why an annotate command failed.
#[derive(Debug, Clone, PartialEq, Eq)]
pub enum AnnotateError {
    /// The capture library (storage) failed.
    Library { message: String },
    /// Decoding or encoding an image failed.
    Image { message: String },
    /// A payload was rejected before any work was done.
    InvalidInput { reason: String },
}

/// The human-readable message of an error.
pub open spec fn spec_annotate_message(e: AnnotateError) -> Seq<char> {
    match e {
        AnnotateError::Library { message } => "library error: "@ + message@,
        AnnotateError::Image { message } => "image error: "@ + message@,
        AnnotateError::InvalidInput { reason } => "invalid input: "@ + reason@,
    }
}

impl AnnotateError {
    /// The human-readable message of this error.
    pub fn message(&self) -> (r: String)
        ensures
            r@ == spec_annotate_message(*self),
    {
        let mut s = String::new();
        match self {
            AnnotateError::Library { message } => {
                push_str(&mut s, "library error: ");
                push_str(&mut s, message.as_str());
            },
            AnnotateError::Image { message } => {
                push_str(&mut s, "image error: ");
                push_str(&mut s, message.as_str());
            },
            AnnotateError::InvalidInput { reason } => {
                push_str(&mut s, "invalid input: ");
                push_str(&mut s, reason.as_str());
            },
        }
        s
    }
}

/// The reason given for a PNG payload over the size limit.
pub open spec fn too_large_reason(len: nat) -> Seq<char> {
    "PNG payload too large: "@ + decimal(len) + " bytes (max 16777216 bytes / 16 MiB)"@
}

/// The reason given for a payload shorter than the PNG signature.
pub open spec fn too_short_reason(len: nat) -> Seq<char> {
    "payload too short to be a PNG: "@ + decimal(len) + " bytes (need >= 8 for signature)"@
}

/// The reason given for a payload that does not start with the signature.
pub open spec fn bad_signature_reason() -> Seq<char> {
    "payload does not start with the PNG signature"@
}

/// What validating a PNG payload gives: its length when it is at most
/// 16 MiB and starts with the PNG signature, else the first rule broken
/// (size, then length, then signature).
pub open spec fn spec_validate_png(bytes: Seq<u8>) -> Result<nat, Seq<char>> {
    if bytes.len() > MAX_PNG_BYTES {
        Err(too_large_reason(bytes.len()))
    } else if bytes.len() < 8 {
        Err(too_short_reason(bytes.len()))
    } else if bytes.take(8) != png_signature() {
        Err(bad_signature_reason())
    } else {
        Ok(bytes.len())
    }
}

fn invalid(reason: String) -> (e: AnnotateError)
    ensures
        e == (AnnotateError::InvalidInput { reason }),
{
    AnnotateError::InvalidInput { reason }
}

/// Whether the first eight bytes are the PNG signature.
fn has_png_signature(bytes: &[u8]) -> (r: bool)
    requires
        bytes@.len() >= 8,
    ensures
        r == (bytes@.take(8) == png_signature()),
{
    let sig: [u8; 8] = [0x89u8, 0x50u8, 0x4Eu8, 0x47u8, 0x0Du8, 0x0Au8, 0x1Au8, 0x0Au8];
    assert(sig@ == png_signature());
    let mut i: usize = 0;
    while i < 8
        invariant
            i <= 8,
            bytes@.len() >= 8,
            sig@ == png_signature(),
            forall|j: int| 0 <= j < i ==> bytes@[j] == sig@[j],
        decreases 8 - i,
    {
        if bytes[i] != sig[i] {
            assert(bytes@.take(8)[i as int] != png_signature()[i as int]);
            return false;
        }
        i = i + 1;
    }
    assert(bytes@.take(8) =~= png_signature());
    true
}

/// Checks that `bytes` start with the PNG signature and do not exceed
/// 16 MiB, and returns their length.
pub fn validate_png_payload(bytes: &[u8]) -> (r: Result<usize, AnnotateError>)
    ensures
        match spec_validate_png(bytes@) {
            Ok(n) => r == Ok::<usize, AnnotateError>(n as usize),
            Err(reason) => r matches Err(AnnotateError::InvalidInput { reason: got }) && got@
                == reason,
        },
{
    let len = bytes.len();
    if len > MAX_PNG_BYTES {
        let mut s = String::new();
        push_str(&mut s, "PNG payload too large: ");
        push_decimal(&mut s, len as u64);
        push_str(&mut s, " bytes (max 16777216 bytes / 16 MiB)");
        return Err(invalid(s));
    }
    if len < 8 {
        let mut s = String::new();
        push_str(&mut s, "payload too short to be a PNG: ");
        push_decimal(&mut s, len as u64);
        push_str(&mut s, " bytes (need >= 8 for signature)");
        return Err(invalid(s));
    }
    if !has_png_signature(bytes) {
        let mut s = String::new();
        push_str(&mut s, "payload does not start with the PNG signature");
        return Err(invalid(s));
    }
    Ok(len)
}

/// Any byte stream that starts with the PNG signature and is at most
/// 16 MiB (such as every PNG the capture encoder produces, which begins
/// with the signature) is accepted, and its length is returned.
pub proof fn lemma_png_stream_is_accepted(bytes: Seq<u8>)
    requires
        bytes.len() >= 8,
        bytes.take(8) == png_signature(),
        bytes.len() <= MAX_PNG_BYTES,
    ensures
        spec_validate_png(bytes) == Ok::<nat, Seq<char>>(bytes.len()),
{
}

/// The reason given for a serialized state over the size limit.
pub open spec fn state_too_large_reason(len: nat) -> Seq<char> {
    "state_json too large: "@ + decimal(len) + " bytes (max 1048576 bytes / 1 MiB)"@
}

/// Rejects a serialized annotation state of more than 1 MiB (its UTF-8
/// length), before it is parsed.
pub fn check_state_json_size(state_json: &str) -> (r: Result<(), AnnotateError>)
    ensures
        crate::text::utf8_bytes(state_json@).len() <= MAX_STATE_JSON_BYTES ==> r is Ok,
        crate::text::utf8_bytes(state_json@).len() > MAX_STATE_JSON_BYTES ==> (r matches Err(
            AnnotateError::InvalidInput { reason },
        ) && reason@ == state_too_large_reason(crate::text::utf8_bytes(state_json@).len())),
{
    let len = state_json.as_bytes().len();
    if len > MAX_STATE_JSON_BYTES {
        let mut s = String::new();
        push_str(&mut s, "state_json too large: ");
        push_decimal(&mut s, len as u64);
        push_str(&mut s, " bytes (max 1048576 bytes / 1 MiB)");
        return Err(invalid(s));
    }
    Ok(())
}

/// The reason given for a state of an unknown schema version.
pub open spec fn bad_version_reason(version: u32) -> Seq<char> {
    "state_json version "@ + decimal(version as nat) + " not supported (expected 1)"@
}

/// Accepts only the schema version this editor understands.
pub fn check_state_version(version: u32) -> (r: Result<(), AnnotateError>)
    ensures
        version == STATE_VERSION ==> r is Ok,
        version != STATE_VERSION ==> (r matches Err(AnnotateError::InvalidInput { reason })
            && reason@ == bad_version_reason(version)),
{
    if version != STATE_VERSION {
        let mut s = String::new();
        push_str(&mut s, "state_json version ");
        push_decimal(&mut s, version as u64);
        push_str(&mut s, " not supported (expected 1)");
        return Err(invalid(s));
    }
    Ok(())
}

} // verus!
