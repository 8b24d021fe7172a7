//! Payment admission: request validation, the request fingerprint that binds
//! an idempotency key to one request, replay of a stored response, and the
//! admission protocol that reserves at most one pending attempt per invoice.

use vstd::prelude::*;
use vstd::utf8::encode_utf8;
use crate::codec::{new_id, sha256, spec_sha256, uuid_string, uuid_text, json_string, json_string_literal,
    json_escape_all, json_plain, hex_digits_u128, nibbles, pow16, lemma_escape_all_plain,
    lemma_escape_all_injective, lemma_nibbles_shape, lemma_nibbles_injective, lemma_u128_below_pow16};
use crate::error::{ApiError, STATUS_ACCEPTED, STATUS_CONFLICT, STATUS_NOT_FOUND,
    STATUS_UNPROCESSABLE_ENTITY, STATUS_INTERNAL_SERVER_ERROR};
use crate::invoices::{InvoiceState, state_named, check_no_pending};
use crate::psp::charge_terms;
use crate::text::{same_text, same_bytes, utf8_len_at_most};

verus! {

/// The mock card tokens that the processor understands.
pub open spec fn known_token(t: Seq<char>) -> bool {
    ||| t == "tok_success"@
    ||| t == "tok_insufficient_funds"@
    ||| t == "tok_card_declined"@
    ||| t == "tok_timeout"@
    ||| t == "tok_network_error"@
}

/// Whether the token is one the processor understands.
/// The tokens that admission accepts are exactly the five that the processor
/// understands: `tok_success`, `tok_insufficient_funds`, `tok_card_declined`,
/// `tok_timeout` and `tok_network_error`.
pub proof fn admitted_tokens_are_processor_tokens(t: Seq<char>)
    ensures
        known_token(t) <==> charge_terms(t) is Some,
        known_token(t) <==> (t == "tok_success"@ || t == "tok_insufficient_funds"@ || t
            == "tok_card_declined"@ || t == "tok_timeout"@ || t == "tok_network_error"@),
{
}

pub fn is_known_token(t: &str) -> (r: bool)
    ensures
        r == known_token(t@),
{
    same_text(t, "tok_success") || same_text(t, "tok_insufficient_funds") || same_text(
        t,
        "tok_card_declined",
    ) || same_text(t, "tok_timeout") || same_text(t, "tok_network_error")
}

/// The canonical JSON document of a payment request, whose digest binds an
/// idempotency key to the invoice and the token.
pub open spec fn canonical_pay_request(invoice_id: u128, token: Seq<char>) -> Seq<char> {
    "{\"invoice_id\":"@ + json_string_literal(uuid_text(invoice_id)) + ",\"mock_card_token\":"@
        + json_string_literal(token) + "}"@
}

proof fn lemma_uuid_literal(id: u128)
    ensures
        json_string_literal(uuid_text(id)) == seq!['"'] + uuid_text(id) + seq!['"'],
        uuid_text(id).len() == 36,
{
    let h = hex_digits_u128(id);
    lemma_nibbles_shape(id as nat, 32);
    let t = uuid_text(id);
    assert forall|i: int| 0 <= i < t.len() implies #[trigger] json_plain(t[i]) by {
        if i < 8 {
            assert(t[i] == h[i]);
        } else if i == 8 || i == 13 || i == 18 || i == 23 {
        } else if i < 13 {
            assert(t[i] == h[i - 1]);
        } else if i < 18 {
            assert(t[i] == h[i - 2]);
        } else if i < 23 {
            assert(t[i] == h[i - 3]);
        } else {
            assert(t[i] == h[i - 4]);
        }
    }
    lemma_escape_all_plain(t);
}

proof fn lemma_uuid_text_injective(a: u128, b: u128)
    requires
        uuid_text(a) == uuid_text(b),
    ensures
        a == b,
{
    let (ha, hb) = (hex_digits_u128(a), hex_digits_u128(b));
    lemma_nibbles_shape(a as nat, 32);
    lemma_nibbles_shape(b as nat, 32);
    let (ta, tb) = (uuid_text(a), uuid_text(b));
    assert forall|i: int| 0 <= i < 32 implies ha[i] == hb[i] by {
        let j = if i < 8 {
            i
        } else if i < 12 {
            i + 1
        } else if i < 16 {
            i + 2
        } else if i < 20 {
            i + 3
        } else {
            i + 4
        };
        assert(ta[j] == ha[i]);
        assert(tb[j] == hb[i]);
    }
    assert(ha =~= hb);
    lemma_u128_below_pow16();
    lemma_nibbles_injective(a as nat, b as nat, 32);
}

/// The canonical request determines the invoice and the token it was made
/// from, so a fingerprint names one request (up to SHA-256 collisions).
pub proof fn canonical_request_is_injective(i1: u128, t1: Seq<char>, i2: u128, t2: Seq<char>)
    requires
        canonical_pay_request(i1, t1) == canonical_pay_request(i2, t2),
    ensures
        i1 == i2,
        t1 == t2,
{
    let p1 = "{\"invoice_id\":"@;
    let p2 = ",\"mock_card_token\":"@;
    let p3 = "}"@;
    lemma_uuid_literal(i1);
    lemma_uuid_literal(i2);
    let (u1, u2) = (json_string_literal(uuid_text(i1)), json_string_literal(uuid_text(i2)));
    let (j1, j2) = (json_string_literal(t1), json_string_literal(t2));
    let d = canonical_pay_request(i1, t1);
    assert(d == p1 + u1 + p2 + j1 + p3);
    assert(d == p1 + u2 + p2 + j2 + p3);
    let a = p1.len() as int;
    assert(u1 =~= d.subrange(a, a + 38));
    assert(u2 =~= d.subrange(a, a + 38));
    assert(uuid_text(i1) =~= u1.subrange(1, 37));
    assert(uuid_text(i2) =~= u2.subrange(1, 37));
    lemma_uuid_text_injective(i1, i2);
    let b = a + 38 + p2.len();
    assert(j1 =~= d.subrange(b, d.len() - p3.len()));
    assert(j2 =~= d.subrange(b, d.len() - p3.len()));
    assert(json_escape_all(t1) =~= j1.subrange(1, j1.len() - 1));
    assert(json_escape_all(t2) =~= j2.subrange(1, j2.len() - 1));
    lemma_escape_all_injective(t1, t2);
}

/// The SHA-256 fingerprint of a payment request.
pub open spec fn pay_request_hash(invoice_id: u128, token: Seq<char>) -> Seq<u8> {
    spec_sha256(encode_utf8(canonical_pay_request(invoice_id, token)))
}

/// The response body that admits a payment attempt.
pub open spec fn pending_body(attempt_id: u128) -> Seq<char> {
    "{\"attempt_id\":"@ + json_string_literal(uuid_text(attempt_id)) + ",\"status\":\"pending\"}"@
}

/// The fingerprint of a payment request for `invoice_id` with `token`.
pub fn request_hash(invoice_id: u128, token: &str) -> (h: Vec<u8>)
    ensures
        h@ == pay_request_hash(invoice_id, token@),
{
    let id_text = uuid_string(invoice_id);
    let doc = String::from_str("{\"invoice_id\":").concat(json_string(id_text.as_str()).as_str())
        .concat(",\"mock_card_token\":").concat(json_string(token).as_str()).concat("}");
    sha256(doc.as_str().as_bytes())
}

/// The body `{"attempt_id":"<uuid>","status":"pending"}`.
pub fn pending_response_body(attempt_id: u128) -> (b: String)
    ensures
        b@ == pending_body(attempt_id),
{
    let id_text = uuid_string(attempt_id);
    String::from_str("{\"attempt_id\":").concat(json_string(id_text.as_str()).as_str()).concat(
        ",\"status\":\"pending\"}",
    )
}

/// What is stored of an attempt under its idempotency key.
pub struct StoredAttempt {
    pub request_hash: Vec<u8>,
    pub response_status: i16,
    pub response_body: String,
}

/// A response to send: an HTTP status and a JSON body.
pub struct StoredResponse {
    pub status: u16,
    pub body: String,
}

/// What replaying a stored attempt answers.
pub enum ReplayOutcome {
    /// The key was used with a different request.
    KeyReused,
    /// The stored status is not an HTTP status.
    Corrupt,
    /// The response stored with the attempt.
    Stored(u16, Seq<char>),
}

pub open spec fn replay_outcome(stored_hash: Seq<u8>, status: i16, body: Seq<char>, expected: Seq<u8>) -> ReplayOutcome {
    if stored_hash != expected {
        ReplayOutcome::KeyReused
    } else if !(100 <= status <= 999) {
        ReplayOutcome::Corrupt
    } else {
        ReplayOutcome::Stored(status as u16, body)
    }
}

/// The result `r` answers the replay outcome `o`.
pub open spec fn answers(r: Result<StoredResponse, ApiError>, o: ReplayOutcome) -> bool {
    match o {
        ReplayOutcome::KeyReused => r matches Err(e) && e.is(
            STATUS_CONFLICT,
            "idempotency_key_reused",
            "Idempotency key was used with a different request",
        ),
        ReplayOutcome::Corrupt => r matches Err(e) && e.is(
            STATUS_INTERNAL_SERVER_ERROR,
            "internal_error",
            "Internal server error",
        ),
        ReplayOutcome::Stored(status, body) => r matches Ok(resp) && resp.status == status
            && resp.body@ == body,
    }
}

pub open spec fn replays(r: Result<StoredResponse, ApiError>, stored: StoredAttempt, expected: Seq<u8>) -> bool {
    answers(r, replay_outcome(stored.request_hash@, stored.response_status, stored.response_body@, expected))
}

/// Replays the response stored under an idempotency key, provided the key is
/// presented with the same request it was first used with.
pub fn replay(stored: &StoredAttempt, expected_hash: &[u8]) -> (r: Result<StoredResponse, ApiError>)
    ensures
        replays(r, *stored, expected_hash@),
{
    if !same_bytes(stored.request_hash.as_slice(), expected_hash) {
        return Err(
            ApiError::conflict(
                "idempotency_key_reused",
                "Idempotency key was used with a different request",
            ),
        );
    }
    if stored.response_status < 100 || stored.response_status > 999 {
        return Err(ApiError::internal());
    }
    Ok(StoredResponse { status: stored.response_status as u16, body: stored.response_body.clone() })
}

/// A request repeated under its key replays the admission's own answer: an
/// attempt that a flow inserted, looked up by a later flow for the same
/// invoice and token, answers 202 with the body the admission answered.
pub proof fn admission_replays_unchanged(first: PayFlow, attempt: NewAttempt, later: PayFlow)
    requires
        first.wf(),
        first.attempt_matches(attempt),
        later.wf(),
        later.invoice_id == first.invoice_id,
        later.token@ == first.token@,
    ensures
        replay_outcome(
            attempt.request_hash@,
            attempt.response_status,
            attempt.response_body@,
            later.request_hash@,
        ) == ReplayOutcome::Stored(STATUS_ACCEPTED, pending_body(first.attempt_id)),
{
}

/// The idempotency key and the token of a payment request are acceptable:
/// a key of 1..=255 bytes and a known token.
pub open spec fn key_acceptable(key: Seq<char>) -> bool {
    key.len() > 0 && encode_utf8(key).len() <= 255
}

/// The steps of admitting a payment.
#[derive(PartialEq, Eq, Structural, Clone, Copy, Debug)]
pub enum PayPhase {
    /// Waiting for the attempt stored under the key, outside any transaction.
    FirstKeyLookup,
    /// Waiting for the invoice, locked in a new transaction.
    LockInvoice,
    /// Waiting for the attempt stored under the key, inside the transaction.
    SecondKeyLookup,
    /// Waiting to learn whether the invoice has a pending attempt.
    PendingCheck,
    /// Waiting for the new attempt's insertion.
    Insert,
    /// The insertion collided with another; waiting for the attempt stored under the key.
    RecoveryKeyLookup,
    /// Waiting for the commit.
    Commit,
    /// A response was chosen.
    Finished,
}

/// What the database answered.
pub enum PayEvent {
    /// The attempt stored under the idempotency key, if any.
    KeyLookup(Option<StoredAttempt>),
    /// The locked invoice's state text, or `None` when the invoice is not found.
    InvoiceLocked(Option<String>),
    /// Whether the invoice has a pending attempt.
    PendingChecked(bool),
    /// The new attempt was inserted.
    Inserted,
    /// The insertion violated a uniqueness constraint (the key or the
    /// invoice's pending attempt is already taken).
    InsertRejectedAsDuplicate,
    /// The transaction committed.
    Committed,
    /// Any other database failure.
    DatabaseFailed,
}

/// The answers that each phase waits for.
pub open spec fn answers_phase(phase: PayPhase, event: PayEvent) -> bool {
    match phase {
        PayPhase::FirstKeyLookup | PayPhase::SecondKeyLookup | PayPhase::RecoveryKeyLookup => event is KeyLookup,
        PayPhase::LockInvoice => event is InvoiceLocked,
        PayPhase::PendingCheck => event is PendingChecked,
        PayPhase::Insert => event is Inserted || event is InsertRejectedAsDuplicate,
        PayPhase::Commit => event is Committed,
        PayPhase::Finished => false,
    }
}

/// A new payment attempt to insert.
pub struct NewAttempt {
    pub attempt_id: u128,
    pub invoice_id: u128,
    pub idempotency_key: String,
    pub request_hash: Vec<u8>,
    pub token: String,
    pub response_status: i16,
    pub response_body: String,
}

/// What to do next.
pub enum PayAction {
    /// Read the attempt stored under the key, outside any transaction.
    LookupKey,
    /// Begin a transaction and lock the invoice row.
    BeginAndLockInvoice,
    /// Read the attempt stored under the key inside the transaction.
    LookupKeyInTransaction,
    /// Ask whether the invoice has a pending attempt.
    CheckPending,
    /// Insert the attempt.
    InsertAttempt(NewAttempt),
    /// Roll back, then read the attempt stored under the key outside any transaction.
    RollbackAndLookupKey,
    /// Commit the transaction.
    Commit,
    /// Answer the client; the transaction, if any, is dropped uncommitted
    /// unless a `Committed` event preceded this.
    Respond(Result<StoredResponse, ApiError>),
}

/// The admission of one payment request.
pub struct PayFlow {
    pub invoice_id: u128,
    pub idempotency_key: String,
    pub token: String,
    pub request_hash: Vec<u8>,
    /// The identifier the attempt gets if it is admitted.
    pub attempt_id: u128,
    /// The invoice state seen when the invoice was locked.
    pub invoice_state: Option<InvoiceState>,
    pub phase: PayPhase,
}

impl PayFlow {
    /// The flow's invariant: once past the invoice checks, the locked invoice was open.
    pub open spec fn wf(self) -> bool {
        &&& self.request_hash@ == pay_request_hash(self.invoice_id, self.token@)
        &&& known_token(self.token@)
        &&& key_acceptable(self.idempotency_key@)
        &&& (self.phase == PayPhase::PendingCheck || self.phase == PayPhase::Insert || self.phase
            == PayPhase::RecoveryKeyLookup || self.phase == PayPhase::Commit) ==> self.invoice_state
            == Some(InvoiceState::Open)
    }

    /// The attempt this flow inserts.
    pub open spec fn attempt_matches(self, a: NewAttempt) -> bool {
        &&& a.attempt_id == self.attempt_id
        &&& a.invoice_id == self.invoice_id
        &&& a.idempotency_key@ == self.idempotency_key@
        &&& a.request_hash@ == self.request_hash@
        &&& a.token@ == self.token@
        &&& a.response_status == 202
        &&& a.response_body@ == pending_body(self.attempt_id)
    }

    /// Starts admitting a payment of `invoice_id` with `token` under the
    /// `Idempotency-Key` header `key` (`None` when it is absent or not text).
    /// `attempt_id` is the identifier the attempt gets if it is admitted.
    pub fn start(invoice_id: u128, key: Option<&str>, token: &str, attempt_id: u128) -> (r: (
        PayFlow,
        PayAction,
    ))
        ensures
            r.0.attempt_id == attempt_id,
            key is None ==> r.0.phase == PayPhase::Finished && (r.1 matches PayAction::Respond(
                Err(e),
            ) && e.is(
                STATUS_UNPROCESSABLE_ENTITY,
                "invalid_request",
                "Idempotency-Key header is required",
            )),
            key matches Some(k) && !key_acceptable(k@) ==> r.0.phase == PayPhase::Finished && (
            r.1 matches PayAction::Respond(Err(e)) && e.is(
                STATUS_UNPROCESSABLE_ENTITY,
                "invalid_request",
                "Idempotency-Key must be 1..255 characters",
            )),
            key matches Some(k) && key_acceptable(k@) && !known_token(token@) ==> r.0.phase
                == PayPhase::Finished && (r.1 matches PayAction::Respond(Err(e)) && e.is(
                STATUS_UNPROCESSABLE_ENTITY,
                "invalid_request",
                "Unknown mock card token",
            )),
            key matches Some(k) ==> (key_acceptable(k@) && known_token(token@) ==> {
                &&& r.0.wf()
                &&& r.0.phase == PayPhase::FirstKeyLookup
                &&& r.1 is LookupKey
                &&& r.0.invoice_id == invoice_id
                &&& r.0.idempotency_key@ == k@
                &&& r.0.token@ == token@
                &&& r.0.attempt_id == attempt_id
                &&& r.0.invoice_state is None
            }),
    {
        let finished = PayFlow {
            invoice_id,
            idempotency_key: String::new(),
            token: String::from_str(token),
            request_hash: Vec::new(),
            attempt_id,
            invoice_state: None,
            phase: PayPhase::Finished,
        };
        let k = match key {
            None => {
                return (
                    finished,
                    PayAction::Respond(Err(ApiError::bad("Idempotency-Key header is required"))),
                );
            },
            Some(k) => k,
        };
        if k.unicode_len() == 0 || !utf8_len_at_most(k, 255) {
            return (
                finished,
                PayAction::Respond(Err(ApiError::bad("Idempotency-Key must be 1..255 characters"))),
            );
        }
        if !is_known_token(token) {
            return (finished, PayAction::Respond(Err(ApiError::bad("Unknown mock card token"))));
        }
        let digest = request_hash(invoice_id, token);
        (
            PayFlow {
                invoice_id,
                idempotency_key: String::from_str(k),
                token: String::from_str(token),
                request_hash: digest,
                attempt_id,
                invoice_state: None,
                phase: PayPhase::FirstKeyLookup,
            },
            PayAction::LookupKey,
        )
    }

    /// Starts admitting a payment, drawing a fresh version-4 identifier for
    /// the attempt; otherwise as `start`.
    pub fn begin(invoice_id: u128, key: Option<&str>, token: &str) -> (r: (PayFlow, PayAction))
        ensures
            (r.0.attempt_id >> 76u128) & 0xfu128 == 4,
            (r.0.attempt_id >> 62u128) & 0x3u128 == 2,
            key is None ==> r.0.phase == PayPhase::Finished && (r.1 matches PayAction::Respond(
                Err(e),
            ) && e.is(
                STATUS_UNPROCESSABLE_ENTITY,
                "invalid_request",
                "Idempotency-Key header is required",
            )),
            key matches Some(k) && !key_acceptable(k@) ==> r.0.phase == PayPhase::Finished && (
            r.1 matches PayAction::Respond(Err(e)) && e.is(
                STATUS_UNPROCESSABLE_ENTITY,
                "invalid_request",
                "Idempotency-Key must be 1..255 characters",
            )),
            key matches Some(k) && key_acceptable(k@) && !known_token(token@) ==> r.0.phase
                == PayPhase::Finished && (r.1 matches PayAction::Respond(Err(e)) && e.is(
                STATUS_UNPROCESSABLE_ENTITY,
                "invalid_request",
                "Unknown mock card token",
            )),
            key matches Some(k) ==> (key_acceptable(k@) && known_token(token@) ==> {
                &&& r.0.wf()
                &&& r.0.phase == PayPhase::FirstKeyLookup
                &&& r.1 is LookupKey
                &&& r.0.invoice_id == invoice_id
                &&& r.0.idempotency_key@ == k@
                &&& r.0.token@ == token@
                &&& r.0.invoice_state is None
            }),
    {
        let attempt_id = new_id();
        Self::start(invoice_id, key, token, attempt_id)
    }

    /// Takes the database's answer to the last action and chooses the next one.
    pub fn step(self, event: PayEvent) -> (r: (PayFlow, PayAction))
        requires
            self.wf(),
        ensures
            r.0.wf(),
            r.0.invoice_id == self.invoice_id,
            r.0.idempotency_key@ == self.idempotency_key@,
            r.0.token@ == self.token@,
            r.0.request_hash@ == self.request_hash@,
            r.0.attempt_id == self.attempt_id,
            !(self.phase == PayPhase::LockInvoice && event is InvoiceLocked) ==> r.0.invoice_state
                == self.invoice_state,
            // A stored attempt under the key is always answered by its replay.
            (self.phase == PayPhase::FirstKeyLookup || self.phase == PayPhase::SecondKeyLookup
                || self.phase == PayPhase::RecoveryKeyLookup) ==> (event matches PayEvent::KeyLookup(
                Some(stored),
            ) ==> r.0.phase == PayPhase::Finished && (r.1 matches PayAction::Respond(res)
                && replays(res, stored, self.request_hash@))),
            self.phase == PayPhase::FirstKeyLookup && (event matches PayEvent::KeyLookup(None))
                ==> r.0.phase == PayPhase::LockInvoice && r.1 is BeginAndLockInvoice,
            self.phase == PayPhase::LockInvoice && (event matches PayEvent::InvoiceLocked(None))
                ==> r.0.phase == PayPhase::Finished && (r.1 matches PayAction::Respond(Err(e))
                && e.is(STATUS_NOT_FOUND, "not_found", "Resource not found")),
            self.phase == PayPhase::LockInvoice ==> (event matches PayEvent::InvoiceLocked(Some(s))
                ==> r.0.phase == PayPhase::SecondKeyLookup && r.1 is LookupKeyInTransaction
                && r.0.invoice_state == state_named(s@)),
            self.phase == PayPhase::SecondKeyLookup && (event matches PayEvent::KeyLookup(None))
                ==> {
                &&& self.invoice_state == Some(InvoiceState::Paid) ==> r.0.phase
                    == PayPhase::Finished && (r.1 matches PayAction::Respond(Err(e)) && e.is(
                    STATUS_CONFLICT,
                    "invoice_already_paid",
                    "Paid invoices cannot be charged again",
                ))
                &&& self.invoice_state != Some(InvoiceState::Paid) && self.invoice_state != Some(
                    InvoiceState::Open,
                ) ==> r.0.phase == PayPhase::Finished && (r.1 matches PayAction::Respond(Err(e))
                    && e.is(STATUS_CONFLICT, "invoice_voided", "Void invoices cannot be charged"))
                &&& self.invoice_state == Some(InvoiceState::Open) ==> r.0.phase
                    == PayPhase::PendingCheck && r.1 is CheckPending
            },
            self.phase == PayPhase::PendingCheck && (event matches PayEvent::PendingChecked(true))
                ==> r.0.phase == PayPhase::Finished && (r.1 matches PayAction::Respond(Err(e))
                && e.is(STATUS_CONFLICT, "payment_in_progress", "Invoice has a pending payment")),
            self.phase == PayPhase::PendingCheck && (event matches PayEvent::PendingChecked(false))
                ==> r.0.phase == PayPhase::Insert && (r.1 matches PayAction::InsertAttempt(a)
                && self.attempt_matches(a)),
            self.phase == PayPhase::Insert && (event matches PayEvent::Inserted) ==> r.0.phase
                == PayPhase::Commit && r.1 is Commit,
            self.phase == PayPhase::Insert && (event matches PayEvent::InsertRejectedAsDuplicate)
                ==> r.0.phase == PayPhase::RecoveryKeyLookup && r.1 is RollbackAndLookupKey,
            self.phase == PayPhase::RecoveryKeyLookup && (event matches PayEvent::KeyLookup(None))
                ==> r.0.phase == PayPhase::Finished && (r.1 matches PayAction::Respond(Err(e))
                && e.is(STATUS_CONFLICT, "payment_in_progress", "Invoice has a pending payment")),
            self.phase == PayPhase::Commit && (event matches PayEvent::Committed) ==> r.0.phase
                == PayPhase::Finished && (r.1 matches PayAction::Respond(Ok(resp)) && resp.status
                == STATUS_ACCEPTED && resp.body@ == pending_body(self.attempt_id)),
            // A new attempt is inserted only for an open invoice without a pending attempt.
            r.1 is InsertAttempt ==> self.phase == PayPhase::PendingCheck && self.invoice_state
                == Some(InvoiceState::Open) && (event matches PayEvent::PendingChecked(false)),
            // An answer that does not fit the phase, a database failure, or any
            // answer after the response, ends in an internal error.
            !answers_phase(self.phase, event) ==> r.0.phase
                == PayPhase::Finished && (r.1 matches PayAction::Respond(Err(e)) && e.is(
                STATUS_INTERNAL_SERVER_ERROR,
                "internal_error",
                "Internal server error",
            )),
    {
        let phase = self.phase;
        let hash_copy = self.request_hash.clone();
        let mut next = self;
        match (phase, event) {
            (PayPhase::FirstKeyLookup, PayEvent::KeyLookup(Some(stored)))
            | (PayPhase::SecondKeyLookup, PayEvent::KeyLookup(Some(stored)))
            | (PayPhase::RecoveryKeyLookup, PayEvent::KeyLookup(Some(stored))) => {
                let res = replay(&stored, hash_copy.as_slice());
                next.phase = PayPhase::Finished;
                (next, PayAction::Respond(res))
            },
            (PayPhase::FirstKeyLookup, PayEvent::KeyLookup(None)) => {
                next.phase = PayPhase::LockInvoice;
                (next, PayAction::BeginAndLockInvoice)
            },
            (PayPhase::LockInvoice, PayEvent::InvoiceLocked(None)) => {
                next.phase = PayPhase::Finished;
                (next, PayAction::Respond(Err(ApiError::not_found())))
            },
            (PayPhase::LockInvoice, PayEvent::InvoiceLocked(Some(s))) => {
                next.invoice_state = InvoiceState::from_db(s.as_str());
                next.phase = PayPhase::SecondKeyLookup;
                (next, PayAction::LookupKeyInTransaction)
            },
            (PayPhase::SecondKeyLookup, PayEvent::KeyLookup(None)) => {
                match next.invoice_state {
                    Some(InvoiceState::Paid) => {
                        next.phase = PayPhase::Finished;
                        (
                            next,
                            PayAction::Respond(
                                Err(
                                    ApiError::conflict(
                                        "invoice_already_paid",
                                        "Paid invoices cannot be charged again",
                                    ),
                                ),
                            ),
                        )
                    },
                    Some(InvoiceState::Open) => {
                        next.phase = PayPhase::PendingCheck;
                        (next, PayAction::CheckPending)
                    },
                    _ => {
                        next.phase = PayPhase::Finished;
                        (
                            next,
                            PayAction::Respond(
                                Err(
                                    ApiError::conflict(
                                        "invoice_voided",
                                        "Void invoices cannot be charged",
                                    ),
                                ),
                            ),
                        )
                    },
                }
            },
            (PayPhase::PendingCheck, PayEvent::PendingChecked(pending)) => {
                match check_no_pending(pending) {
                    Err(e) => {
                        next.phase = PayPhase::Finished;
                        (next, PayAction::Respond(Err(e)))
                    },
                    Ok(()) => {
                        let attempt = NewAttempt {
                            attempt_id: next.attempt_id,
                            invoice_id: next.invoice_id,
                            idempotency_key: next.idempotency_key.clone(),
                            request_hash: hash_copy,
                            token: next.token.clone(),
                            response_status: 202,
                            response_body: pending_response_body(next.attempt_id),
                        };
                        next.phase = PayPhase::Insert;
                        (next, PayAction::InsertAttempt(attempt))
                    },
                }
            },
            (PayPhase::Insert, PayEvent::Inserted) => {
                next.phase = PayPhase::Commit;
                (next, PayAction::Commit)
            },
            (PayPhase::Insert, PayEvent::InsertRejectedAsDuplicate) => {
                next.phase = PayPhase::RecoveryKeyLookup;
                (next, PayAction::RollbackAndLookupKey)
            },
            (PayPhase::RecoveryKeyLookup, PayEvent::KeyLookup(None)) => {
                next.phase = PayPhase::Finished;
                (
                    next,
                    PayAction::Respond(
                        Err(
                            ApiError::conflict(
                                "payment_in_progress",
                                "Invoice has a pending payment",
                            ),
                        ),
                    ),
                )
            },
            (PayPhase::Commit, PayEvent::Committed) => {
                let body = pending_response_body(next.attempt_id);
                next.phase = PayPhase::Finished;
                (next, PayAction::Respond(Ok(StoredResponse { status: STATUS_ACCEPTED, body })))
            },
            _ => {
                next.phase = PayPhase::Finished;
                (next, PayAction::Respond(Err(ApiError::internal())))
            },
        }
    }
}

} // verus!
