//! Media identifier codec.
//!
//! A token is the URL-safe, padding-free base64 encoding of a 10-byte
//! little-endian payload: one format version byte (currently 1), one kind
//! discriminant byte, and the signed 64-bit record id.

use base64::Engine;
use vstd::prelude::*;

use crate::errors::MediaServeError;

verus! {

/// The kind discriminant carried by a token.
///
/// `ProfilePicture` and `Banner` are access modes over a photo record, not
/// separate record kinds: decoding them yields a photo lookup plus a role
/// check at the delivery layer.
#[derive(Clone, Copy, PartialEq, Eq, Structural, Debug)]
pub enum MediaType {
    Photo,
    Video,
    Audio,
    ProfilePicture,
    Banner,
}

/// Discriminant byte stored in a token for each kind.
pub open spec fn media_type_code(media_type: MediaType) -> u8 {
    match media_type {
        MediaType::Photo => 1,
        MediaType::Video => 2,
        MediaType::Audio => 3,
        MediaType::ProfilePicture => 4,
        MediaType::Banner => 5,
    }
}

/// Inverse of `media_type_code`; unknown bytes have no kind.
pub open spec fn media_type_of_code(code: u8) -> Option<MediaType> {
    if code == 1 {
        Some(MediaType::Photo)
    } else if code == 2 {
        Some(MediaType::Video)
    } else if code == 3 {
        Some(MediaType::Audio)
    } else if code == 4 {
        Some(MediaType::ProfilePicture)
    } else if code == 5 {
        Some(MediaType::Banner)
    } else {
        None
    }
}

/// Every kind's code decodes back to that kind.
pub proof fn lemma_media_type_code_round_trip(media_type: MediaType)
    ensures
        media_type_of_code(media_type_code(media_type)) == Some(media_type),
{
}

fn media_type_byte(media_type: MediaType) -> (code: u8)
    ensures
        code == media_type_code(media_type),
{
    match media_type {
        MediaType::Photo => 1,
        MediaType::Video => 2,
        MediaType::Audio => 3,
        MediaType::ProfilePicture => 4,
        MediaType::Banner => 5,
    }
}

/// The id's two's-complement image in an unsigned 64-bit word.
pub open spec fn u64_of_i64(id: i64) -> u64 {
    if id >= 0 {
        id as u64
    } else {
        (id + 0x1_0000_0000_0000_0000) as u64
    }
}

/// Inverse of `u64_of_i64`.
pub open spec fn i64_of_u64(word: u64) -> i64 {
    if word < 0x8000_0000_0000_0000 {
        word as i64
    } else {
        (word - 0x1_0000_0000_0000_0000) as i64
    }
}

pub proof fn lemma_i64_u64_round_trip(id: i64)
    ensures
        i64_of_u64(u64_of_i64(id)) == id,
{
}

fn i64_to_u64(id: i64) -> (word: u64)
    ensures
        word == u64_of_i64(id),
{
    if id >= 0 {
        id as u64
    } else {
        let shifted: i64 = (id + 1) + i64::MAX;
        (shifted as u64) + 0x8000_0000_0000_0000u64
    }
}

fn u64_to_i64(word: u64) -> (id: i64)
    ensures
        id == i64_of_u64(word),
{
    if word < 0x8000_0000_0000_0000 {
        word as i64
    } else {
        let shifted: u64 = word - 0x8000_0000_0000_0000;
        ((shifted as i64) - i64::MAX) - 1
    }
}

/// Version byte of the current token layout.
pub open spec fn token_version() -> u8 {
    1
}

/// The 10-byte payload a token carries for a kind and id.
pub open spec fn media_id_payload(media_type: MediaType, id: i64) -> Seq<u8> {
    seq![token_version(), media_type_code(media_type)] + vstd::bytes::spec_u64_to_le_bytes(
        u64_of_i64(id),
    )
}

/// What decoding makes of a raw payload: the kind and id of a well-formed
/// 10-byte payload, or `InvalidIdentifier` for a short payload, an unknown
/// version byte, an unknown kind byte, or trailing bytes.
pub open spec fn spec_parse_payload(payload: Seq<u8>) -> Result<(MediaType, i64), MediaServeError> {
    if payload.len() < 1 {
        Err(MediaServeError::InvalidIdentifier)
    } else if payload[0] != token_version() {
        Err(MediaServeError::InvalidIdentifier)
    } else if payload.len() != 10 {
        Err(MediaServeError::InvalidIdentifier)
    } else {
        match media_type_of_code(payload[1]) {
            Some(media_type) => Ok(
                (
                    media_type,
                    i64_of_u64(vstd::bytes::spec_u64_from_le_bytes(payload.subrange(2, 10))),
                ),
            ),
            None => Err(MediaServeError::InvalidIdentifier),
        }
    }
}

/// Round trip: the payload written for a kind and id parses back to exactly
/// that kind and id.
pub proof fn lemma_media_id_round_trip(media_type: MediaType, id: i64)
    ensures
        spec_parse_payload(media_id_payload(media_type, id)) == Ok::<
            (MediaType, i64),
            MediaServeError,
        >((media_type, id)),
{
    vstd::bytes::lemma_auto_spec_u64_to_from_le_bytes();
    let payload = media_id_payload(media_type, id);
    assert(payload.subrange(2, 10) =~= vstd::bytes::spec_u64_to_le_bytes(u64_of_i64(id)));
    lemma_i64_u64_round_trip(id);
    lemma_media_type_code_round_trip(media_type);
}

/// The ASCII bytes of the URL-safe, padding-free base64 encoding.
pub uninterp spec fn base64_url(bytes: Seq<u8>) -> Seq<u8>;

/// Relies on base64's `Engine::encode` with `BASE64_URL_SAFE_NO_PAD`: the
/// encoding is a pure function of the input bytes.
#[verifier::external_body]
fn b64_encode(bytes: &[u8]) -> (token: String)
    ensures
        vstd::utf8::encode_utf8(token@) == base64_url(bytes@),
{
    base64::prelude::BASE64_URL_SAFE_NO_PAD.encode(bytes)
}

#[verifier::external_type_specification]
#[verifier::external_body]
pub struct ExDecodeError(base64::DecodeError);

/// Relies on base64's `Engine::decode` with `BASE64_URL_SAFE_NO_PAD`: with
/// padding forbidden and trailing bits rejected, decoding succeeds exactly on
/// canonical encodings and inverts `Engine::encode`.
#[verifier::external_body]
fn b64_decode(token: &[u8]) -> (r: Result<Vec<u8>, base64::DecodeError>)
    ensures
        r is Ok ==> base64_url(r->Ok_0@) == token@,
        forall|b: Seq<u8>| token@ == base64_url(b) ==> r is Ok && r->Ok_0@ == b,
{
    base64::prelude::BASE64_URL_SAFE_NO_PAD.decode(token)
}

fn media_id_bytes(media_type: MediaType, id: i64) -> (payload: Vec<u8>)
    ensures
        payload@ == media_id_payload(media_type, id),
{
    let mut payload: Vec<u8> = Vec::new();
    payload.push(1u8);
    payload.push(media_type_byte(media_type));
    let mut le_bytes = vstd::bytes::u64_to_le_bytes(i64_to_u64(id));
    payload.append(&mut le_bytes);
    proof {
        assert(payload@ =~= media_id_payload(media_type, id));
    }
    payload
}

/// Encode a kind and record id as an opaque token.
pub fn encode_media_id(media_type: MediaType, id: i64) -> (token: String)
    ensures
        vstd::utf8::encode_utf8(token@) == base64_url(media_id_payload(media_type, id)),
{
    let payload = media_id_bytes(media_type, id);
    b64_encode(payload.as_slice())
}

fn parse_payload(payload: &Vec<u8>) -> (r: Result<(MediaType, i64), MediaServeError>)
    ensures
        r == spec_parse_payload(payload@),
{
    if payload.len() < 1 {
        return Err(MediaServeError::InvalidIdentifier);
    }
    if payload[0] != 1 {
        return Err(MediaServeError::InvalidIdentifier);
    }
    if payload.len() != 10 {
        return Err(MediaServeError::InvalidIdentifier);
    }
    let media_type = match payload[1] {
        1 => MediaType::Photo,
        2 => MediaType::Video,
        3 => MediaType::Audio,
        4 => MediaType::ProfilePicture,
        5 => MediaType::Banner,
        _ => { return Err(MediaServeError::InvalidIdentifier) },
    };
    let word = vstd::bytes::u64_from_le_bytes(&payload.as_slice()[2..10]);
    Ok((media_type, u64_to_i64(word)))
}

/// Decode a token given as raw ASCII bytes.
///
/// The result is fixed by the payload the token encodes: a token that is not
/// valid base64 under the URL-safe unpadded alphabet, or whose payload is
/// short, carries an unknown version or kind byte, or has trailing bytes, is
/// rejected with `InvalidIdentifier`.
pub fn parse_media_id_bytes(token: &[u8]) -> (r: Result<(MediaType, i64), MediaServeError>)
    ensures
        forall|b: Seq<u8>| token@ == base64_url(b) ==> r == spec_parse_payload(b),
        (forall|b: Seq<u8>| token@ != base64_url(b)) ==> r == Err::<
            (MediaType, i64),
            MediaServeError,
        >(MediaServeError::InvalidIdentifier),
{
    match b64_decode(token) {
        Ok(payload) => parse_payload(&payload),
        Err(_) => Err(MediaServeError::InvalidIdentifier),
    }
}

/// Decode a token given as a string, as received in a request path.
pub fn parse_media_id(token: &str) -> (r: Result<(MediaType, i64), MediaServeError>)
    ensures
        forall|b: Seq<u8>| vstd::utf8::encode_utf8(token@) == base64_url(b) ==> r
            == spec_parse_payload(b),
        (forall|b: Seq<u8>| vstd::utf8::encode_utf8(token@) != base64_url(b)) ==> r == Err::<
            (MediaType, i64),
            MediaServeError,
        >(MediaServeError::InvalidIdentifier),
{
    parse_media_id_bytes(token.as_bytes())
}

} // verus!
