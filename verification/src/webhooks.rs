//! Webhooks: destination URL rules, signing secrets, the signature that a
//! receiver checks, and the delivery retry schedule.

use vstd::prelude::*;
use vstd::utf8::encode_utf8;
use vstd::slice::slice_to_vec;
use crate::codec::{base64url, base64url_encode, hex_encode, hex_lower, hmac_sha256,
    spec_hmac_sha256, random_bytes};
use crate::error::{ApiError, STATUS_UNPROCESSABLE_ENTITY};
use crate::text::{decimal_digits, decimal_text, decimal_string, same_text, signed_decimal_string};

verus! {

/// The parts of a parsed URL that the endpoint rules read, and its serialization.
pub struct UrlParts {
    pub scheme: String,
    pub has_host: bool,
    pub username: String,
    pub has_password: bool,
    pub has_fragment: bool,
    pub serialized: String,
}

impl UrlParts {
    pub open spec fn parts(self) -> (Seq<char>, bool, Seq<char>, bool, bool, Seq<char>) {
        (self.scheme@, self.has_host, self.username@, self.has_password, self.has_fragment, self.serialized@)
    }
}

/// What `url::Url::parse` makes of a text: `None` when it does not parse,
/// else its scheme, whether it has a host, its username, whether it has a
/// password, whether it has a fragment, and its serialization.
pub uninterp spec fn spec_url_parse(input: Seq<char>) -> Option<(Seq<char>, bool, Seq<char>, bool, bool, Seq<char>)>;

/// `url::Url::parse`, read through `scheme`, `host_str`, `username`,
/// `password`, `fragment` and `as_str`.
#[verifier::external_body]
pub(crate) fn parse_url(input: &str) -> (r: Option<UrlParts>)
    ensures
        r is None <==> spec_url_parse(input@) is None,
        r matches Some(p) ==> spec_url_parse(input@) == Some(p.parts()),
{
    match url::Url::parse(input) {
        Ok(u) => Some(UrlParts {
            scheme: u.scheme().to_string(),
            has_host: u.host_str().is_some(),
            username: u.username().to_string(),
            has_password: u.password().is_some(),
            has_fragment: u.fragment().is_some(),
            serialized: u.as_str().to_string(),
        }),
        Err(_) => None,
    }
}

/// A destination is HTTP or HTTPS with a host, without credentials and without fragment.
pub open spec fn url_acceptable(p: (Seq<char>, bool, Seq<char>, bool, bool, Seq<char>)) -> bool {
    &&& (p.0 == "http"@ || p.0 == "https"@)
    &&& p.1
    &&& p.2.len() == 0
    &&& !p.3
    &&& !p.4
}

/// A destination with a username, a password or a fragment is never
/// acceptable, nor one without a host or with a scheme other than `http` or `https`.
pub proof fn endpoint_rules_refuse_credentials_and_fragments(
    p: (Seq<char>, bool, Seq<char>, bool, bool, Seq<char>),
)
    ensures
        p.2.len() > 0 ==> !url_acceptable(p),
        p.3 ==> !url_acceptable(p),
        p.4 ==> !url_acceptable(p),
        !p.1 ==> !url_acceptable(p),
        p.0 != "http"@ && p.0 != "https"@ ==> !url_acceptable(p),
        (p.0 == "http"@ || p.0 == "https"@) && p.1 && p.2.len() == 0 && !p.3 && !p.4
            ==> url_acceptable(p),
{
}

/// The endpoint rules applied to a parse result: the serialized URL to store, or the error.
pub fn check_endpoint_url(parsed: Option<UrlParts>) -> (r: Result<String, ApiError>)
    ensures
        parsed is None ==> (r matches Err(e) && e.is(
            STATUS_UNPROCESSABLE_ENTITY,
            "invalid_request",
            "Invalid webhook URL",
        )),
        parsed matches Some(p) ==> (url_acceptable(p.parts()) ==> (r matches Ok(u) && u@ == p.serialized@)),
        parsed matches Some(p) ==> (p.username@.len() > 0 || p.has_password || p.has_fragment
            ==> r is Err),
        parsed matches Some(p) ==> (!url_acceptable(p.parts()) ==> (r matches Err(e) && e.is(
            STATUS_UNPROCESSABLE_ENTITY,
            "invalid_request",
            "Webhook URL must be HTTP or HTTPS without credentials or fragment",
        ))),
{
    match parsed {
        None => Err(ApiError::bad("Invalid webhook URL")),
        Some(p) => {
            if !(same_text(p.scheme.as_str(), "http") || same_text(p.scheme.as_str(), "https"))
                || !p.has_host || p.username.as_str().unicode_len() != 0 || p.has_password
                || p.has_fragment {
                return Err(
                    ApiError::bad(
                        "Webhook URL must be HTTP or HTTPS without credentials or fragment",
                    ),
                );
            }
            Ok(p.serialized)
        },
    }
}

/// Parses a webhook destination and applies the endpoint rules.
pub fn validate_endpoint_url(input: &str) -> (r: Result<String, ApiError>)
    ensures
        spec_url_parse(input@) is None ==> (r matches Err(e) && e.is(
            STATUS_UNPROCESSABLE_ENTITY,
            "invalid_request",
            "Invalid webhook URL",
        )),
        spec_url_parse(input@) matches Some(p) ==> (url_acceptable(p) ==> (r matches Ok(u) && u@
            == p.5)),
        spec_url_parse(input@) matches Some(p) ==> (!url_acceptable(p) ==> (r matches Err(e)
            && e.is(
            STATUS_UNPROCESSABLE_ENTITY,
            "invalid_request",
            "Webhook URL must be HTTP or HTTPS without credentials or fragment",
        ))),
{
    check_endpoint_url(parse_url(input))
}

/// A fresh endpoint signing secret and its URL-safe Base64 text, shown once.
pub struct SigningSecret {
    pub bytes: Vec<u8>,
    pub encoded: String,
}

/// Draws 32 random bytes as a signing secret.
pub fn new_signing_secret() -> (s: SigningSecret)
    ensures
        s.bytes@.len() == 32,
        s.encoded@ == base64url(s.bytes@),
{
    let raw = random_bytes::<32>();
    let bytes = slice_to_vec(raw.as_slice());
    let encoded = base64url_encode(bytes.as_slice());
    SigningSecret { bytes, encoded }
}

/// The signed text: `timestamp + "." + event_id + "." + body`.
pub open spec fn signed_message(timestamp: Seq<char>, event_id: int, body: Seq<char>) -> Seq<char> {
    timestamp + "."@ + decimal_text(event_id) + "."@ + body
}

/// The `X-Dodo-Signature` header: `v1=` and the hexadecimal HMAC-SHA256 of
/// the UTF-8 bytes of the signed text under the endpoint secret.
pub open spec fn signature_header(secret: Seq<u8>, timestamp: Seq<char>, event_id: int, body: Seq<char>) -> Seq<char> {
    "v1="@ + hex_lower(spec_hmac_sha256(secret, encode_utf8(signed_message(timestamp, event_id, body))))
}

/// The signed text of a delivery.
pub fn signed_text(timestamp: &str, event_id: i64, body: &str) -> (m: String)
    ensures
        m@ == signed_message(timestamp@, event_id as int, body@),
{
    let id = signed_decimal_string(event_id);
    String::from_str(timestamp).concat(".").concat(id.as_str()).concat(".").concat(body)
}

/// The header value for a computed MAC: `v1=` and its hexadecimal text.
pub fn signature_from_mac(mac: &[u8]) -> (h: String)
    ensures
        h@ == "v1="@ + hex_lower(mac@),
{
    String::from_str("v1=").concat(hex_encode(mac).as_str())
}

/// Signs a webhook delivery.
pub fn sign_delivery(secret: &[u8], timestamp: &str, event_id: i64, body: &str) -> (h: String)
    ensures
        h@ == signature_header(secret@, timestamp@, event_id as int, body@),
{
    let message = signed_text(timestamp, event_id, body);
    let mac = hmac_sha256(secret, message.as_str().as_bytes());
    signature_from_mac(mac.as_slice())
}

/// How a delivery's send went.
pub enum SendResult {
    /// The destination answered with this HTTP status.
    Responded(u16),
    /// The request failed; the error's text.
    Failed(String),
}

/// How the delivery record changes after a send.
pub enum DeliveryUpdate {
    /// A 2xx answer: delivered.
    Delivered { http_status: Option<i32> },
    /// The sixth failed send: no more tries.
    Exhausted { http_status: Option<i32>, error: String },
    /// A failed send before the sixth: try again after `delay_seconds`.
    Retry { delay_seconds: i64, http_status: Option<i32>, error: String },
}

/// Seconds before the next send after the `attempt`-th failed one (1..=5).
pub open spec fn delivery_delay(attempt: int) -> int {
    if attempt == 1 {
        5
    } else if attempt == 2 {
        30
    } else if attempt == 3 {
        120
    } else if attempt == 4 {
        600
    } else {
        3600
    }
}

pub open spec fn is_success_status(s: u16) -> bool {
    200 <= s <= 299
}

/// The error recorded for a failed send.
pub open spec fn send_error(result: SendResult) -> Seq<char> {
    match result {
        SendResult::Responded(s) => "HTTP "@ + decimal_digits(s as nat),
        SendResult::Failed(e) => e@,
    }
}

pub open spec fn sent_status(result: SendResult) -> Option<i32> {
    match result {
        SendResult::Responded(s) => Some(s as i32),
        SendResult::Failed(_) => None,
    }
}

/// Every 2xx status, and only a 2xx status, counts as delivered.
pub proof fn every_2xx_status_delivers(s: u16)
    ensures
        is_success_status(s) <==> 200 <= s <= 299,
{
}

/// Chooses the delivery's new record after its `attempt_count`-th send
/// (the claim counts sends from 1).
pub fn delivery_update(result: SendResult, attempt_count: i32) -> (u: DeliveryUpdate)
    requires
        attempt_count >= 1,
    ensures
        result matches SendResult::Responded(s) ==> (is_success_status(s) ==> u == (
        DeliveryUpdate::Delivered { http_status: Some(s as i32) })),
        result matches SendResult::Responded(s) ==> (200 <= s <= 299 ==> u is Delivered),
        u is Delivered ==> (result matches SendResult::Responded(s) && 200 <= s <= 299),
        !(result matches SendResult::Responded(s) && is_success_status(s)) ==> {
            &&& attempt_count >= 6 ==> (u matches DeliveryUpdate::Exhausted { http_status, error }
                && http_status == sent_status(result) && error@ == send_error(result))
            &&& attempt_count < 6 ==> (u matches DeliveryUpdate::Retry {
                delay_seconds,
                http_status,
                error,
            } && delay_seconds == delivery_delay(attempt_count as int) && http_status
                == sent_status(result) && error@ == send_error(result))
        },
{
    let (http_status, error) = match result {
        SendResult::Responded(s) => {
            if 200 <= s && s <= 299 {
                return DeliveryUpdate::Delivered { http_status: Some(s as i32) };
            }
            (Some(s as i32), String::from_str("HTTP ").concat(decimal_string(s as u64).as_str()))
        },
        SendResult::Failed(e) => (None, e),
    };
    if attempt_count >= 6 {
        DeliveryUpdate::Exhausted { http_status, error }
    } else {
        let delay_seconds: i64 = if attempt_count == 1 {
            5
        } else if attempt_count == 2 {
            30
        } else if attempt_count == 3 {
            120
        } else if attempt_count == 4 {
            600
        } else {
            3600
        };
        DeliveryUpdate::Retry { delay_seconds, http_status, error }
    }
}

} // verus!
