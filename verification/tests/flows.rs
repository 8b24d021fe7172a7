use hmac::Mac;
use dodo_assignment::api_keys::{api_key_from_bytes, issue_api_key, key_digest_from_header, revoke_outcome};
use dodo_assignment::sha256;
use dodo_assignment::payment_worker::{
    after_reconciliation, retry_delay_seconds, settle, PspResult, ReconcileAction, ReconcileEvent,
    ReconcilePhase, Reconciliation, Settlement, WorkerDecision,
};
use dodo_assignment::payments::{
    pending_response_body, replay, request_hash, PayAction, PayEvent, PayFlow, PayPhase,
    StoredAttempt,
};
use dodo_assignment::psp::{answer_charge, plan_charge, StoredCharge};
use dodo_assignment::webhooks::{
    check_endpoint_url, delivery_update, new_signing_secret, sign_delivery, signed_text,
    validate_endpoint_url, DeliveryUpdate, SendResult,
};
use dodo_assignment::invoices::InvoiceState;

const INVOICE: u128 = 0x1111_2222_3333_4444_5555_6666_7777_8888;
const ATTEMPT: u128 = 0xaaaa_bbbb_cccc_4ddd_8eee_ffff_0000_1111;

fn uuid_string(v: u128) -> String {
    uuid::Uuid::from_u128(v).hyphenated().to_string()
}

fn canonical(invoice: u128, token: &str) -> Vec<u8> {
    let mut m = serde_json::Map::new();
    m.insert("invoice_id".to_string(), serde_json::Value::String(uuid_string(invoice)));
    m.insert("mock_card_token".to_string(), serde_json::Value::String(token.to_string()));
    serde_json::to_vec(&serde_json::Value::Object(m)).unwrap()
}

fn respond(action: PayAction) -> Result<(u16, String), (u16, &'static str)> {
    match action {
        PayAction::Respond(Ok(r)) => Ok((r.status, r.body)),
        PayAction::Respond(Err(e)) => Err((e.status, e.code)),
        _ => panic!("expected a response"),
    }
}

fn admitted_flow(token: &str) -> PayFlow {
    let (flow, action) = PayFlow::start(INVOICE, Some("key-1"), token, ATTEMPT);
    assert!(matches!(action, PayAction::LookupKey));
    let (flow, action) = flow.step(PayEvent::KeyLookup(None));
    assert!(matches!(action, PayAction::BeginAndLockInvoice));
    let (flow, action) = flow.step(PayEvent::InvoiceLocked(Some("open".to_string())));
    assert!(matches!(action, PayAction::LookupKeyInTransaction));
    let (flow, action) = flow.step(PayEvent::KeyLookup(None));
    assert!(matches!(action, PayAction::CheckPending));
    flow
}

#[test]
fn request_hash_digests_the_canonical_json_document() {
    assert_eq!(request_hash(INVOICE, "tok_success"), sha256(&canonical(INVOICE, "tok_success")));
    assert_ne!(request_hash(INVOICE, "tok_success"), request_hash(INVOICE, "tok_timeout"));
    assert_ne!(request_hash(INVOICE, "tok_success"), request_hash(INVOICE + 1, "tok_success"));
}

#[test]
fn pending_body_is_the_admission_json() {
    let mut m = serde_json::Map::new();
    m.insert("attempt_id".to_string(), serde_json::Value::String(uuid_string(ATTEMPT)));
    m.insert("status".to_string(), serde_json::Value::String("pending".to_string()));
    assert_eq!(pending_response_body(ATTEMPT), serde_json::to_string(&serde_json::Value::Object(m)).unwrap());
}

#[test]
fn payment_admission_happy_path() {
    let flow = admitted_flow("tok_success");
    let (flow, action) = flow.step(PayEvent::PendingChecked(false));
    let attempt = match action {
        PayAction::InsertAttempt(a) => a,
        _ => panic!("expected an insert"),
    };
    assert_eq!(attempt.attempt_id, ATTEMPT);
    assert_eq!(attempt.invoice_id, INVOICE);
    assert_eq!(attempt.idempotency_key, "key-1");
    assert_eq!(attempt.token, "tok_success");
    assert_eq!(attempt.response_status, 202);
    assert_eq!(attempt.request_hash, request_hash(INVOICE, "tok_success"));
    assert_eq!(attempt.response_body, pending_response_body(ATTEMPT));
    let (flow, action) = flow.step(PayEvent::Inserted);
    assert!(matches!(action, PayAction::Commit));
    let (flow, action) = flow.step(PayEvent::Committed);
    assert_eq!(flow.phase, PayPhase::Finished);
    assert_eq!(respond(action), Ok((202, pending_response_body(ATTEMPT))));
}

#[test]
fn same_key_and_body_replays_the_stored_response() {
    let stored = StoredAttempt {
        request_hash: request_hash(INVOICE, "tok_success"),
        response_status: 202,
        response_body: pending_response_body(ATTEMPT),
    };
    let (flow, _) = PayFlow::start(INVOICE, Some("key-1"), "tok_success", 0);
    let (_, action) = flow.step(PayEvent::KeyLookup(Some(stored)));
    assert_eq!(respond(action), Ok((202, pending_response_body(ATTEMPT))));
}

#[test]
fn changed_body_under_the_same_key_is_refused() {
    let stored = StoredAttempt {
        request_hash: request_hash(INVOICE, "tok_success"),
        response_status: 202,
        response_body: pending_response_body(ATTEMPT),
    };
    let (flow, _) = PayFlow::start(INVOICE, Some("key-1"), "tok_card_declined", 0);
    let (_, action) = flow.step(PayEvent::KeyLookup(Some(stored)));
    assert_eq!(respond(action), Err((409, "idempotency_key_reused")));
    let other = StoredAttempt {
        request_hash: request_hash(INVOICE, "tok_success"),
        response_status: 202,
        response_body: pending_response_body(ATTEMPT),
    };
    let (flow, _) = PayFlow::start(INVOICE + 1, Some("key-1"), "tok_success", 0);
    let (_, action) = flow.step(PayEvent::KeyLookup(Some(other)));
    assert_eq!(respond(action), Err((409, "idempotency_key_reused")));
}

#[test]
fn replay_rejects_a_stored_status_that_is_not_http() {
    let stored = StoredAttempt { request_hash: vec![1, 2], response_status: -3, response_body: "{}".to_string() };
    let e = replay(&stored, &[1, 2]).err().unwrap();
    assert_eq!(e.code, "internal_error");
    let stored = StoredAttempt { request_hash: vec![1, 2], response_status: 202, response_body: "{}".to_string() };
    let r = replay(&stored, &[1, 2]).ok().unwrap();
    assert_eq!((r.status, r.body.as_str()), (202, "{}"));
}

#[test]
fn payment_request_validation() {
    let (_, a) = PayFlow::start(INVOICE, None, "tok_success", 0);
    assert_eq!(respond(a), Err((422, "invalid_request")));
    let (_, a) = PayFlow::start(INVOICE, Some(""), "tok_success", 0);
    assert_eq!(respond(a), Err((422, "invalid_request")));
    let long = "k".repeat(256);
    let (_, a) = PayFlow::start(INVOICE, Some(&long), "tok_success", 0);
    assert_eq!(respond(a), Err((422, "invalid_request")));
    let (_, a) = PayFlow::start(INVOICE, Some("k"), "tok_unknown", 0);
    match a {
        PayAction::Respond(Err(e)) => assert_eq!(e.message, "Unknown mock card token"),
        _ => panic!(),
    }
    let ok = "k".repeat(255);
    let (f, a) = PayFlow::start(INVOICE, Some(&ok), "tok_network_error", 0);
    assert!(matches!(a, PayAction::LookupKey));
    assert_eq!(f.phase, PayPhase::FirstKeyLookup);
}

#[test]
fn paid_void_and_pending_invoices_are_not_charged() {
    for (state, code) in [("paid", "invoice_already_paid"), ("void", "invoice_voided")] {
        let (f, _) = PayFlow::start(INVOICE, Some("k"), "tok_success", 0);
        let (f, _) = f.step(PayEvent::KeyLookup(None));
        let (f, _) = f.step(PayEvent::InvoiceLocked(Some(state.to_string())));
        assert_eq!(f.invoice_state, InvoiceState::from_db(state));
        let (_, a) = f.step(PayEvent::KeyLookup(None));
        assert_eq!(respond(a), Err((409, code)));
    }
    let f = admitted_flow("tok_success");
    let (_, a) = f.step(PayEvent::PendingChecked(true));
    assert_eq!(respond(a), Err((409, "payment_in_progress")));
    let (f, _) = PayFlow::start(INVOICE, Some("k"), "tok_success", 0);
    let (f, _) = f.step(PayEvent::KeyLookup(None));
    let (_, a) = f.step(PayEvent::InvoiceLocked(None));
    assert_eq!(respond(a), Err((404, "not_found")));
}

#[test]
fn duplicate_insert_recovers_by_replay_or_conflict() {
    let f = admitted_flow("tok_success");
    let (f, _) = f.step(PayEvent::PendingChecked(false));
    let (f, a) = f.step(PayEvent::InsertRejectedAsDuplicate);
    assert!(matches!(a, PayAction::RollbackAndLookupKey));
    let (_, a) = f.step(PayEvent::KeyLookup(None));
    assert_eq!(respond(a), Err((409, "payment_in_progress")));

    let f = admitted_flow("tok_success");
    let (f, _) = f.step(PayEvent::PendingChecked(false));
    let (f, _) = f.step(PayEvent::InsertRejectedAsDuplicate);
    let winner = StoredAttempt {
        request_hash: request_hash(INVOICE + 5, "tok_success"),
        response_status: 202,
        response_body: pending_response_body(7),
    };
    let (_, a) = f.step(PayEvent::KeyLookup(Some(winner)));
    assert_eq!(respond(a), Err((409, "idempotency_key_reused")));
}

#[test]
fn database_failures_and_stray_events_are_internal_errors() {
    let f = admitted_flow("tok_success");
    let (f, a) = f.step(PayEvent::DatabaseFailed);
    assert_eq!(respond(a), Err((500, "internal_error")));
    let (_, a) = f.step(PayEvent::Committed);
    assert_eq!(respond(a), Err((500, "internal_error")));
    let f = admitted_flow("tok_success");
    let (_, a) = f.step(PayEvent::Committed);
    assert_eq!(respond(a), Err((500, "internal_error")));
}

fn result(status: &str, psp_ref: Option<u128>, code: Option<&str>) -> PspResult {
    PspResult { status: status.to_string(), psp_ref, code: code.map(|c| c.to_string()) }
}

#[test]
fn reconciliation_looks_up_before_charging_under_one_identifier() {
    let (r, a) = Reconciliation::start(ATTEMPT, INVOICE, "tok_timeout".to_string());
    assert!(matches!(a, ReconcileAction::Lookup { attempt_id } if attempt_id == ATTEMPT));
    let (r, a) = r.step(ReconcileEvent::Processor(None));
    assert!(matches!(a, ReconcileAction::ReadInvoiceTotal { invoice_id } if invoice_id == INVOICE));
    let (r, a) = r.step(ReconcileEvent::Amount(Some(2500)));
    match a {
        ReconcileAction::PostCharge { attempt_id, token, amount_cents } => {
            assert_eq!((attempt_id, token.as_str(), amount_cents), (ATTEMPT, "tok_timeout", 2500));
        },
        _ => panic!(),
    }
    let (r, a) = r.step(ReconcileEvent::Processor(None));
    assert!(matches!(a, ReconcileAction::Lookup { attempt_id } if attempt_id == ATTEMPT));
    let (r, a) = r.step(ReconcileEvent::Processor(Some(result("succeeded", Some(9), None))));
    assert_eq!(r.phase, ReconcilePhase::Done);
    assert!(matches!(a, ReconcileAction::Conclude(Some(p)) if p.status == "succeeded"));
}

#[test]
fn reconciliation_stops_at_the_first_report_or_missing_amount() {
    let (r, _) = Reconciliation::start(ATTEMPT, INVOICE, "tok_success".to_string());
    let (_, a) = r.step(ReconcileEvent::Processor(Some(result("failed", None, Some("card_declined")))));
    assert!(matches!(a, ReconcileAction::Conclude(Some(_))));
    let (r, _) = Reconciliation::start(ATTEMPT, INVOICE, "tok_success".to_string());
    let (r, _) = r.step(ReconcileEvent::Processor(None));
    let (_, a) = r.step(ReconcileEvent::Amount(None));
    assert!(matches!(a, ReconcileAction::Conclude(None)));
}

#[test]
fn retry_delay_doubles_up_to_sixty_seconds() {
    let got: Vec<i64> = (0..9).map(retry_delay_seconds).collect();
    assert_eq!(got, vec![1, 2, 4, 8, 16, 32, 60, 60, 60]);
    assert_eq!(retry_delay_seconds(-1), 60);
}

#[test]
fn only_final_reports_settle() {
    assert!(matches!(after_reconciliation(Some(result("succeeded", Some(1), None)), 1), WorkerDecision::Settle(_)));
    assert!(matches!(after_reconciliation(Some(result("failed", None, None)), 1), WorkerDecision::Settle(_)));
    assert!(matches!(after_reconciliation(Some(result("processing", None, None)), 3), WorkerDecision::Retry(8)));
    assert!(matches!(after_reconciliation(None, 7), WorkerDecision::Retry(60)));
}

#[test]
fn settlement_marks_paid_or_leaves_open() {
    let s = settle("pending", "open", 2500, result("succeeded", Some(77), None)).ok().unwrap();
    assert!(matches!(s, Settlement::Paid { psp_ref: 77, total_cents: 2500 }));
    assert_eq!(s.event_type(), Some("invoice.paid"));
    assert_eq!(s.invoice_state_after(), Some(InvoiceState::Paid));
    let s = settle("pending", "open", 2500, result("failed", None, Some("network_error"))).ok().unwrap();
    assert!(matches!(&s, Settlement::Failed { failure_code } if failure_code == "network_error"));
    assert_eq!(s.invoice_state_after(), Some(InvoiceState::Open));
    assert_eq!(s.event_type(), Some("invoice.payment_failed"));
    let s = settle("pending", "open", 1, result("failed", None, None)).ok().unwrap();
    assert!(matches!(&s, Settlement::Failed { failure_code } if failure_code == "processor_failed"));
    let s = settle("succeeded", "paid", 1, result("succeeded", Some(1), None)).ok().unwrap();
    assert!(matches!(s, Settlement::AlreadySettled));
    assert_eq!(s.event_type(), None);
    assert!(settle("pending", "void", 1, result("succeeded", Some(1), None)).is_err());
    let e = settle("pending", "open", 1, result("succeeded", None, None)).err().unwrap();
    assert_eq!(e.code, "internal_error");
}

#[test]
fn webhook_signature_is_hmac_of_timestamp_id_and_body() {
    let secret = b"0123456789abcdef0123456789abcdef";
    let header = sign_delivery(secret, "2026-01-01T00:00:00Z", 42, "{\"a\":1}");
    assert_eq!(signed_text("2026-01-01T00:00:00Z", 42, "{\"a\":1}"), "2026-01-01T00:00:00Z.42.{\"a\":1}");
    let expected = {
        let mut m = hmac::Hmac::<sha2::Sha256>::new_from_slice(secret).unwrap();
        m.update(b"2026-01-01T00:00:00Z.42.{\"a\":1}");
        format!("v1={}", hex::encode(m.finalize().into_bytes()))
    };
    assert_eq!(header, expected);
    assert_eq!(header.len(), 3 + 64);
}

#[test]
fn webhook_deliveries_back_off_then_exhaust() {
    assert!(matches!(delivery_update(SendResult::Responded(204), 3), DeliveryUpdate::Delivered { http_status: Some(204) }));
    let expected = [5, 30, 120, 600, 3600];
    for (count, delay) in (1..=5).zip(expected) {
        match delivery_update(SendResult::Responded(503), count) {
            DeliveryUpdate::Retry { delay_seconds, http_status, error } => {
                assert_eq!(delay_seconds, delay);
                assert_eq!(http_status, Some(503));
                assert_eq!(error, "HTTP 503");
            },
            _ => panic!(),
        }
    }
    match delivery_update(SendResult::Failed("connection refused".to_string()), 6) {
        DeliveryUpdate::Exhausted { http_status, error } => {
            assert_eq!(http_status, None);
            assert_eq!(error, "connection refused");
        },
        _ => panic!(),
    }
}

#[test]
fn webhook_urls_must_be_plain_http_or_https() {
    assert_eq!(validate_endpoint_url("https://example.test/webhooks").ok().unwrap(), "https://example.test/webhooks");
    assert_eq!(validate_endpoint_url("HTTP://Example.TEST").ok().unwrap(), "http://example.test/");
    let e = validate_endpoint_url("not a url").err().unwrap();
    assert_eq!(e.message, "Invalid webhook URL");
    for bad in ["ftp://example.test/", "https://u:p@example.test/", "https://example.test/#frag", "mailto:a@b"] {
        let e = validate_endpoint_url(bad).err().unwrap();
        assert_eq!(e.message, "Webhook URL must be HTTP or HTTPS without credentials or fragment");
    }
    assert!(check_endpoint_url(None).is_err());
}

#[test]
fn signing_secrets_are_32_bytes_shown_in_base64url() {
    let s = new_signing_secret();
    assert_eq!(s.bytes.len(), 32);
    assert_eq!(s.encoded.len(), 43);
    assert!(!s.encoded.contains('='));
}

#[test]
fn api_keys_have_the_documented_shape_and_authenticate() {
    let m = api_key_from_bytes(&[0xde, 0xad, 0xbe, 0xef], &[0xfb, 0xff]);
    assert_eq!(m.prefix, "deadbeef");
    assert_eq!(m.api_key, "dodo_live_deadbeef_-_8");
    assert_eq!(m.key_hash, sha256(b"dodo_live_deadbeef_-_8"));
    let issued = issue_api_key();
    assert!(issued.api_key.starts_with("dodo_live_"));
    assert_eq!(issued.prefix.len(), 8);
    assert_eq!(issued.api_key.len(), "dodo_live_".len() + 8 + 1 + 43);
    let header = format!("Bearer {}", issued.api_key);
    assert_eq!(key_digest_from_header(Some(&header)).ok().unwrap(), issued.key_hash);
    assert_eq!(key_digest_from_header(None).err().unwrap().code, "unauthorized");
    assert_eq!(key_digest_from_header(Some("Basic abc")).err().unwrap().status, 401);
    let demo = "dodo_test_demo_key_for_local_only_0123456789abcdef";
    assert_eq!(key_digest_from_header(Some(&format!("Bearer {demo}"))).ok().unwrap(), sha256(demo.as_bytes()));
}

#[test]
fn revoking_reports_missing_keys() {
    assert_eq!(revoke_outcome(1).ok(), Some(204));
    assert_eq!(revoke_outcome(0).err().unwrap().code, "not_found");
}

fn stored(plan_amount: i64, token: &str) -> StoredCharge {
    let plan = plan_charge(plan_amount, token, 99).ok().unwrap();
    StoredCharge {
        token_hash: plan.fingerprint,
        amount_cents: plan_amount,
        status: plan.status.to_string(),
        psp_ref: plan.psp_ref,
        failure_code: plan.failure_code.map(|c| c.to_string()),
    }
}

#[test]
fn mock_processor_token_outcomes() {
    let p = plan_charge(2500, "tok_success", 5).ok().unwrap();
    assert_eq!((p.status, p.psp_ref, p.failure_code), ("succeeded", Some(5), None));
    assert_eq!(p.fingerprint, sha256(b"2500:tok_success"));
    let p = plan_charge(2500, "tok_timeout", 5).ok().unwrap();
    assert_eq!(p.status, "succeeded");
    for (token, code) in [("tok_insufficient_funds", "insufficient_funds"), ("tok_card_declined", "card_declined"), ("tok_network_error", "network_error")] {
        let p = plan_charge(10, token, 5).ok().unwrap();
        assert_eq!((p.status, p.psp_ref, p.failure_code), ("failed", None, Some(code)));
    }
    assert_eq!(plan_charge(0, "tok_success", 5).err().unwrap().message, "amount_cents must be positive");
    assert_eq!(plan_charge(1, "tok_nope", 5).err().unwrap().message, "Unknown mock token");
}

#[test]
fn mock_processor_answers_repeats_from_the_record() {
    let fp = sha256(b"2500:tok_success");
    let reply = answer_charge(&fp, 2500, "tok_success", stored(2500, "tok_success"), false).ok().unwrap();
    assert_eq!(reply.delay_ms, 0);
    let resp = reply.result.ok().unwrap();
    assert_eq!((resp.status.as_str(), resp.psp_ref, resp.code), ("succeeded", Some(99), None));
    let reply = answer_charge(&fp, 2500, "tok_success", stored(2500, "tok_success"), true).ok().unwrap();
    assert_eq!(reply.delay_ms, 100);
    let fp_t = sha256(b"2500:tok_timeout");
    let reply = answer_charge(&fp_t, 2500, "tok_timeout", stored(2500, "tok_timeout"), true).ok().unwrap();
    assert_eq!(reply.delay_ms, 30000);
    let fp_n = sha256(b"2500:tok_network_error");
    let reply = answer_charge(&fp_n, 2500, "tok_network_error", stored(2500, "tok_network_error"), true).ok().unwrap();
    assert_eq!(reply.result.err().unwrap().code, "mock_network_error");
    let e = answer_charge(&fp, 2500, "tok_success", stored(2500, "tok_card_declined"), false).err().unwrap();
    assert_eq!((e.status, e.code), (409, "psp_idempotency_mismatch"));
    let e = answer_charge(&fp, 2500, "tok_success", stored(2400, "tok_success"), false).err().unwrap();
    assert_eq!(e.code, "psp_idempotency_mismatch");
}
