//! The mock payment processor's charge rules: which token gives which
//! outcome, the fingerprint that ties an attempt identifier to one charge,
//! and how a repeated charge request is answered.

use vstd::prelude::*;
use vstd::utf8::encode_utf8;
use crate::codec::{new_id, sha256, spec_sha256};
use crate::error::{ApiError, STATUS_CONFLICT, STATUS_INTERNAL_SERVER_ERROR, STATUS_UNPROCESSABLE_ENTITY};
use crate::text::{decimal_text, same_bytes, same_text, signed_decimal_string};

verus! {

/// The outcome that a token produces: the charge status and its failure code.
pub open spec fn charge_terms(token: Seq<char>) -> Option<(Seq<char>, Option<Seq<char>>)> {
    if token == "tok_success"@ || token == "tok_timeout"@ {
        Some(("succeeded"@, None))
    } else if token == "tok_insufficient_funds"@ {
        Some(("failed"@, Some("insufficient_funds"@)))
    } else if token == "tok_card_declined"@ {
        Some(("failed"@, Some("card_declined"@)))
    } else if token == "tok_network_error"@ {
        Some(("failed"@, Some("network_error"@)))
    } else {
        None
    }
}

/// The fingerprint of a charge: SHA-256 of `"<amount>:<token>"`.
pub open spec fn charge_fingerprint(amount_cents: int, token: Seq<char>) -> Seq<u8> {
    spec_sha256(encode_utf8(decimal_text(amount_cents) + ":"@ + token))
}

/// A charge to record for an attempt.
pub struct ChargePlan {
    pub fingerprint: Vec<u8>,
    pub status: &'static str,
    pub psp_ref: Option<u128>,
    pub failure_code: Option<&'static str>,
}

/// Plans the charge that a request asks for. `fresh_ref` is the processor
/// reference a successful charge gets.
pub fn plan_charge(amount_cents: i64, token: &str, fresh_ref: u128) -> (r: Result<ChargePlan, ApiError>)
    ensures
        amount_cents <= 0 ==> (r matches Err(e) && e.is(
            STATUS_UNPROCESSABLE_ENTITY,
            "invalid_request",
            "amount_cents must be positive",
        )),
        amount_cents > 0 && charge_terms(token@) is None ==> (r matches Err(e) && e.is(
            STATUS_UNPROCESSABLE_ENTITY,
            "invalid_request",
            "Unknown mock token",
        )),
        amount_cents > 0 ==> (charge_terms(token@) matches Some(t) ==> (r matches Ok(p) && {
            &&& p.fingerprint@ == charge_fingerprint(amount_cents as int, token@)
            &&& p.status@ == t.0
            &&& (t.1 matches Some(c) ==> (p.failure_code matches Some(pc) && pc@ == c))
            &&& (t.1 is None ==> p.failure_code is None)
            &&& (t.0 == "succeeded"@ ==> p.psp_ref == Some(fresh_ref))
            &&& (t.0 != "succeeded"@ ==> p.psp_ref is None)
        })),
{
    if amount_cents <= 0 {
        return Err(ApiError::bad("amount_cents must be positive"));
    }
    proof {
        reveal_strlit("succeeded");
        reveal_strlit("failed");
    }
    let (status, failure_code): (&'static str, Option<&'static str>) = if same_text(
        token,
        "tok_success",
    ) || same_text(token, "tok_timeout") {
        ("succeeded", None)
    } else if same_text(token, "tok_insufficient_funds") {
        ("failed", Some("insufficient_funds"))
    } else if same_text(token, "tok_card_declined") {
        ("failed", Some("card_declined"))
    } else if same_text(token, "tok_network_error") {
        ("failed", Some("network_error"))
    } else {
        return Err(ApiError::bad("Unknown mock token"));
    };
    let text = signed_decimal_string(amount_cents).concat(":").concat(token);
    let fingerprint = sha256(text.as_str().as_bytes());
    let psp_ref = if failure_code.is_none() {
        Some(fresh_ref)
    } else {
        None
    };
    let plan = ChargePlan { fingerprint, status, psp_ref, failure_code };
    assert(charge_terms(token@) is Some);
    let ghost t = charge_terms(token@)->0;
    assert(plan.status@ == t.0);
    Ok(plan)
}

/// Plans a charge with a freshly drawn processor reference for a success.
pub fn plan_new_charge(amount_cents: i64, token: &str) -> (r: Result<ChargePlan, ApiError>)
    ensures
        amount_cents <= 0 ==> (r matches Err(e) && e.is(
            STATUS_UNPROCESSABLE_ENTITY,
            "invalid_request",
            "amount_cents must be positive",
        )),
        amount_cents > 0 && charge_terms(token@) is None ==> (r matches Err(e) && e.is(
            STATUS_UNPROCESSABLE_ENTITY,
            "invalid_request",
            "Unknown mock token",
        )),
        amount_cents > 0 ==> (charge_terms(token@) matches Some(t) ==> (r matches Ok(p) && {
            &&& p.fingerprint@ == charge_fingerprint(amount_cents as int, token@)
            &&& p.status@ == t.0
            &&& (t.1 matches Some(c) ==> (p.failure_code matches Some(pc) && pc@ == c))
            &&& (t.1 is None ==> p.failure_code is None)
            &&& (t.0 == "succeeded"@ ==> (p.psp_ref matches Some(id) && (id >> 76u128) & 0xfu128
                == 4))
            &&& (t.0 != "succeeded"@ ==> p.psp_ref is None)
        })),
{
    plan_charge(amount_cents, token, new_id())
}

/// The charge stored under an attempt identifier.
pub struct StoredCharge {
    pub token_hash: Vec<u8>,
    pub amount_cents: i64,
    pub status: String,
    pub psp_ref: Option<u128>,
    pub failure_code: Option<String>,
}

/// The processor's answer body.
pub struct ChargeResponse {
    pub status: String,
    pub psp_ref: Option<u128>,
    pub code: Option<String>,
}

/// The answer to a charge request: a delay before answering, then the result.
pub struct ChargeReply {
    pub delay_ms: u64,
    pub result: Result<ChargeResponse, ApiError>,
}

pub open spec fn reports(r: ChargeResponse, stored: StoredCharge) -> bool {
    &&& r.status@ == stored.status@
    &&& r.psp_ref == stored.psp_ref
    &&& r.code.is_some() == stored.failure_code.is_some()
    &&& (r.code matches Some(c) ==> c@ == stored.failure_code->0@)
}

/// Answers a charge request after its charge was recorded (`inserted`) or
/// found already recorded under the attempt identifier. A charge recorded
/// with another token or amount is a conflict; a new timeout charge answers
/// after 30 seconds, any other new one after 100 ms, and a new network-error
/// charge answers 500 though its failed result stays recorded.
pub fn answer_charge(fingerprint: &[u8], amount_cents: i64, token: &str, stored: StoredCharge, inserted: bool) -> (r: Result<ChargeReply, ApiError>)
    ensures
        (stored.token_hash@ != fingerprint@ || stored.amount_cents != amount_cents) ==> (r matches Err(
            e,
        ) && e.is(
            STATUS_CONFLICT,
            "psp_idempotency_mismatch",
            "Attempt ID was used with a different charge",
        )),
        stored.token_hash@ == fingerprint@ && stored.amount_cents == amount_cents ==> (r matches Ok(
            reply,
        ) && {
            &&& !inserted ==> reply.delay_ms == 0 && (reply.result matches Ok(resp) && reports(
                resp,
                stored,
            ))
            &&& inserted ==> reply.delay_ms == (if token@ == "tok_timeout"@ {
                30000u64
            } else {
                100u64
            })
            &&& inserted && token@ == "tok_network_error"@ ==> (reply.result matches Err(e) && e.is(
                STATUS_INTERNAL_SERVER_ERROR,
                "mock_network_error",
                "Simulated PSP network failure",
            ))
            &&& inserted && token@ != "tok_network_error"@ ==> (reply.result matches Ok(resp)
                && reports(resp, stored))
        }),
{
    if !same_bytes(stored.token_hash.as_slice(), fingerprint) || stored.amount_cents != amount_cents {
        return Err(
            ApiError::conflict(
                "psp_idempotency_mismatch",
                "Attempt ID was used with a different charge",
            ),
        );
    }
    let response = ChargeResponse {
        status: stored.status,
        psp_ref: stored.psp_ref,
        code: stored.failure_code,
    };
    if !inserted {
        return Ok(ChargeReply { delay_ms: 0, result: Ok(response) });
    }
    let delay_ms: u64 = if same_text(token, "tok_timeout") {
        30000
    } else {
        100
    };
    if same_text(token, "tok_network_error") {
        return Ok(
            ChargeReply {
                delay_ms,
                result: Err(
                    ApiError::new(
                        STATUS_INTERNAL_SERVER_ERROR,
                        "mock_network_error",
                        "Simulated PSP network failure",
                    ),
                ),
            },
        );
    }
    Ok(ChargeReply { delay_ms, result: Ok(response) })
}

} // verus!
