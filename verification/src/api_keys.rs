//! API keys: issuing a key, authenticating a bearer header, revoking.

use vstd::prelude::*;
use vstd::utf8::encode_utf8;
use crate::codec::{base64url, base64url_encode, hex_encode, hex_lower, random_bytes, sha256, spec_sha256};
use crate::error::{ApiError, STATUS_NO_CONTENT, STATUS_NOT_FOUND, STATUS_UNAUTHORIZED};
use crate::text::strip_prefix;

verus! {

/// A newly issued key: its public prefix, the full key (shown once) and the
/// digest that is stored.
pub struct ApiKeyMaterial {
    pub prefix: String,
    pub api_key: String,
    pub key_hash: Vec<u8>,
}

/// The text of a key made from its random prefix and secret bytes:
/// `dodo_live_<hex prefix>_<base64url secret>`.
pub open spec fn api_key_text(prefix_bytes: Seq<u8>, secret_bytes: Seq<u8>) -> Seq<char> {
    "dodo_live_"@ + hex_lower(prefix_bytes) + "_"@ + base64url(secret_bytes)
}

/// What is stored of a key: the SHA-256 digest of its UTF-8 bytes.
pub open spec fn key_digest(key: Seq<char>) -> Seq<u8> {
    spec_sha256(encode_utf8(key))
}

pub open spec fn material_from(m: ApiKeyMaterial, prefix_bytes: Seq<u8>, secret_bytes: Seq<u8>) -> bool {
    &&& m.prefix@ == hex_lower(prefix_bytes)
    &&& m.api_key@ == api_key_text(prefix_bytes, secret_bytes)
    &&& m.key_hash@ == key_digest(m.api_key@)
}

/// Builds a key from its prefix and secret bytes.
pub fn api_key_from_bytes(prefix_bytes: &[u8], secret_bytes: &[u8]) -> (m: ApiKeyMaterial)
    ensures
        material_from(m, prefix_bytes@, secret_bytes@),
{
    let prefix = hex_encode(prefix_bytes);
    let secret = base64url_encode(secret_bytes);
    let api_key = String::from_str("dodo_live_").concat(prefix.as_str()).concat("_").concat(
        secret.as_str(),
    );
    let key_hash = sha256(api_key.as_str().as_bytes());
    ApiKeyMaterial { prefix, api_key, key_hash }
}

/// Issues a key from 4 random prefix bytes and 32 random secret bytes.
pub fn issue_api_key() -> (m: ApiKeyMaterial)
    ensures
        exists|p: Seq<u8>, s: Seq<u8>|
            #![trigger api_key_text(p, s)]
            p.len() == 4 && s.len() == 32 && material_from(m, p, s),
{
    let prefix_bytes = random_bytes::<4>();
    let secret_bytes = random_bytes::<32>();
    let m = api_key_from_bytes(prefix_bytes.as_slice(), secret_bytes.as_slice());
    assert(material_from(m, prefix_bytes@, secret_bytes@));
    assert(api_key_text(prefix_bytes@, secret_bytes@) == m.api_key@);
    m
}

/// The key that an `Authorization` header carries: the text after `Bearer `.
pub open spec fn bearer_key(header: Seq<char>) -> Option<Seq<char>> {
    let p = "Bearer "@;
    if header.len() >= p.len() && header.subrange(0, p.len() as int) == p {
        Some(header.subrange(p.len() as int, header.len() as int))
    } else {
        None
    }
}

/// The digest to look an `Authorization` header's key up by; a missing
/// header, or one without the `Bearer ` scheme, is unauthorized.
pub fn key_digest_from_header(header: Option<&str>) -> (r: Result<Vec<u8>, ApiError>)
    ensures
        header matches Some(h) ==> (bearer_key(h@) matches Some(k) ==> (r matches Ok(d) && d@
            == key_digest(k))),
        header matches Some(h) ==> (bearer_key(h@) is None ==> (r matches Err(e) && e.is(
            STATUS_UNAUTHORIZED,
            "unauthorized",
            "A valid API key is required",
        ))),
        header is None ==> (r matches Err(e) && e.is(
            STATUS_UNAUTHORIZED,
            "unauthorized",
            "A valid API key is required",
        )),
{
    match header {
        None => Err(ApiError::unauthorized()),
        Some(h) => match strip_prefix(h, "Bearer ") {
            None => Err(ApiError::unauthorized()),
            Some(key) => Ok(sha256(key.as_bytes())),
        },
    }
}

/// An issued key authenticates: presenting it as `Bearer <key>` yields the
/// digest that was stored when it was issued.
pub proof fn issued_key_authenticates(m: ApiKeyMaterial, prefix_bytes: Seq<u8>, secret_bytes: Seq<u8>, header: Seq<char>)
    requires
        material_from(m, prefix_bytes, secret_bytes),
        header == "Bearer "@ + m.api_key@,
    ensures
        bearer_key(header) == Some(m.api_key@),
        key_digest(bearer_key(header)->0) == m.key_hash@,
{
    let p = "Bearer "@;
    assert(header.subrange(0, p.len() as int) =~= p);
    assert(header.subrange(p.len() as int, header.len() as int) =~= m.api_key@);
}

/// Revoking answers 204 when a key was revoked, 404 when none matched.
pub fn revoke_outcome(rows_affected: u64) -> (r: Result<u16, ApiError>)
    ensures
        rows_affected == 0 ==> (r matches Err(e) && e.is(STATUS_NOT_FOUND, "not_found", "Resource not found")),
        rows_affected > 0 ==> r == Ok::<u16, ApiError>(STATUS_NO_CONTENT),
{
    if rows_affected == 0 {
        Err(ApiError::not_found())
    } else {
        Ok(STATUS_NO_CONTENT)
    }
}

} // verus!
