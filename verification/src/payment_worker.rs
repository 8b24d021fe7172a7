//! The payment worker's decisions: reconciling an attempt with the processor
//! (always under the attempt's own identifier, looking up before charging),
//! settling the attempt and its invoice, and the retry backoff.

use vstd::prelude::*;
use crate::error::{ApiError, STATUS_INTERNAL_SERVER_ERROR};
use crate::invoices::{InvoiceState, state_named};
use crate::text::same_text;

verus! {

/// What the processor reports for a charge.
pub struct PspResult {
    pub status: String,
    pub psp_ref: Option<u128>,
    pub code: Option<String>,
}

/// A processor status that settles an attempt.
pub open spec fn is_final_status(s: Seq<char>) -> bool {
    s == "succeeded"@ || s == "failed"@
}

/// `2^n`.
pub open spec fn doubling(n: nat) -> int
    decreases n,
{
    if n == 0 {
        1
    } else {
        2 * doubling((n - 1) as nat)
    }
}

/// Seconds until an unresolved attempt is tried again after its
/// `attempt_count`-th claim: `2^min(count, 6)` capped at 60 (a negative count
/// reads as a huge unsigned one).
pub open spec fn retry_delay(attempt_count: int) -> int {
    if attempt_count < 0 || attempt_count >= 6 {
        60
    } else {
        doubling(attempt_count as nat)
    }
}

/// The retry delay after the `attempt_count`-th claim.
pub fn retry_delay_seconds(attempt_count: i32) -> (d: i64)
    ensures
        d == retry_delay(attempt_count as int),
{
    if attempt_count < 0 || attempt_count >= 6 {
        return 60;
    }
    proof {
        lemma_doubling_values();
    }
    let mut d: i64 = 1;
    let mut i: i32 = 0;
    while i < attempt_count
        invariant
            0 <= i <= attempt_count < 6,
            d == doubling(i as nat),
            doubling(0) == 1 && doubling(1) == 2 && doubling(2) == 4 && doubling(3) == 8
                && doubling(4) == 16 && doubling(5) == 32,
        decreases attempt_count - i,
    {
        assert(doubling((i + 1) as nat) == 2 * doubling(i as nat));
        d = d * 2;
        i = i + 1;
    }
    d
}

proof fn lemma_doubling_values()
    ensures
        doubling(0) == 1,
        doubling(1) == 2,
        doubling(2) == 4,
        doubling(3) == 8,
        doubling(4) == 16,
        doubling(5) == 32,
{
    reveal_with_fuel(doubling, 6);
}

/// The retry delay lies in 1..=60 seconds and never shrinks as claims accumulate.
pub proof fn retry_delay_bounded_and_monotone(a: int, b: int)
    requires
        0 <= a <= b,
    ensures
        1 <= retry_delay(a) <= 60,
        retry_delay(a) <= retry_delay(b),
{
    lemma_doubling_values();
}

/// The steps of reconciling one attempt with the processor.
#[derive(PartialEq, Eq, Structural, Clone, Copy, Debug)]
pub enum ReconcilePhase {
    /// Waiting for the lookup of an earlier charge under the attempt's identifier.
    FirstLookup,
    /// Waiting for the invoice total.
    ReadAmount,
    /// Waiting for the charge request's answer.
    Charge,
    /// Waiting for the lookup after an unanswered charge request.
    SecondLookup,
    /// The result is known, or known to be unknown.
    Done,
}

/// An answer from the outside.
pub enum ReconcileEvent {
    /// The processor's report, or `None` when the call failed, was not a
    /// success status, or did not parse.
    Processor(Option<PspResult>),
    /// The invoice total, or `None` when it could not be read.
    Amount(Option<i64>),
}

/// What to do next.
pub enum ReconcileAction {
    /// `GET /charges/{attempt_id}` at the processor.
    Lookup { attempt_id: u128 },
    /// Read the invoice's total.
    ReadInvoiceTotal { invoice_id: u128 },
    /// `POST /charges` with the attempt's identifier as the processor's idempotency key.
    PostCharge { attempt_id: u128, token: String, amount_cents: i64 },
    /// The reconciliation's result.
    Conclude(Option<PspResult>),
}

pub struct Reconciliation {
    pub attempt_id: u128,
    pub invoice_id: u128,
    pub token: String,
    pub phase: ReconcilePhase,
}

impl Reconciliation {
    /// Begins with a lookup: a charge that an earlier run sent may already exist.
    pub fn start(attempt_id: u128, invoice_id: u128, token: String) -> (r: (
        Reconciliation,
        ReconcileAction,
    ))
        ensures
            r.0.attempt_id == attempt_id,
            r.0.invoice_id == invoice_id,
            r.0.token@ == token@,
            r.0.phase == ReconcilePhase::FirstLookup,
            r.1 == (ReconcileAction::Lookup { attempt_id }),
    {
        (
            Reconciliation { attempt_id, invoice_id, token, phase: ReconcilePhase::FirstLookup },
            ReconcileAction::Lookup { attempt_id },
        )
    }

    /// Takes the last action's answer and chooses the next action.
    pub fn step(self, event: ReconcileEvent) -> (r: (Reconciliation, ReconcileAction))
        ensures
            r.0.attempt_id == self.attempt_id,
            r.0.invoice_id == self.invoice_id,
            r.0.token@ == self.token@,
            // Every processor call names this attempt.
            r.1 matches ReconcileAction::Lookup { attempt_id } ==> attempt_id == self.attempt_id,
            r.1 matches ReconcileAction::PostCharge { attempt_id, token, amount_cents } ==> {
                &&& attempt_id == self.attempt_id
                &&& token@ == self.token@
                &&& self.phase == ReconcilePhase::ReadAmount
                &&& event == ReconcileEvent::Amount(Some(amount_cents))
            },
            // The charge is posted only after the first lookup found nothing.
            r.0.phase == ReconcilePhase::ReadAmount ==> self.phase == ReconcilePhase::FirstLookup
                && event == ReconcileEvent::Processor(None),
            r.0.phase == ReconcilePhase::Charge ==> self.phase == ReconcilePhase::ReadAmount
                && r.1 is PostCharge,
            // A processor report ends the reconciliation with that report.
            event matches ReconcileEvent::Processor(Some(p)) ==> (self.phase
                == ReconcilePhase::FirstLookup || self.phase == ReconcilePhase::Charge || self.phase
                == ReconcilePhase::SecondLookup ==> r.0.phase == ReconcilePhase::Done && r.1 == ReconcileAction::Conclude(Some(p))),
            self.phase == ReconcilePhase::FirstLookup && event == ReconcileEvent::Processor(None)
                ==> r.0.phase == ReconcilePhase::ReadAmount && r.1 == (
            ReconcileAction::ReadInvoiceTotal { invoice_id: self.invoice_id }),
            self.phase == ReconcilePhase::ReadAmount && event == ReconcileEvent::Amount(None)
                ==> r.0.phase == ReconcilePhase::Done && r.1 == ReconcileAction::Conclude(None),
            self.phase == ReconcilePhase::ReadAmount && (event matches ReconcileEvent::Amount(Some(a)))
                ==> r.0.phase == ReconcilePhase::Charge && r.1 is PostCharge,
            self.phase == ReconcilePhase::Charge && event == ReconcileEvent::Processor(None)
                ==> r.0.phase == ReconcilePhase::SecondLookup && r.1 == (ReconcileAction::Lookup {
                attempt_id: self.attempt_id,
            }),
            self.phase == ReconcilePhase::SecondLookup && event == ReconcileEvent::Processor(None)
                ==> r.0.phase == ReconcilePhase::Done && r.1 == ReconcileAction::Conclude(None),
            // Any other answer concludes without a result.
            (self.phase == ReconcilePhase::Done || ((self.phase == ReconcilePhase::FirstLookup
                || self.phase == ReconcilePhase::Charge || self.phase
                == ReconcilePhase::SecondLookup) && event is Amount) || (self.phase
                == ReconcilePhase::ReadAmount && event is Processor)) ==> r.0.phase
                == ReconcilePhase::Done && r.1 == ReconcileAction::Conclude(None),
    {
        let mut next = self;
        match (next.phase, event) {
            (ReconcilePhase::FirstLookup, ReconcileEvent::Processor(Some(p)))
            | (ReconcilePhase::Charge, ReconcileEvent::Processor(Some(p)))
            | (ReconcilePhase::SecondLookup, ReconcileEvent::Processor(Some(p))) => {
                next.phase = ReconcilePhase::Done;
                (next, ReconcileAction::Conclude(Some(p)))
            },
            (ReconcilePhase::FirstLookup, ReconcileEvent::Processor(None)) => {
                next.phase = ReconcilePhase::ReadAmount;
                let invoice_id = next.invoice_id;
                (next, ReconcileAction::ReadInvoiceTotal { invoice_id })
            },
            (ReconcilePhase::ReadAmount, ReconcileEvent::Amount(Some(amount_cents))) => {
                next.phase = ReconcilePhase::Charge;
                let attempt_id = next.attempt_id;
                let token = next.token.clone();
                (next, ReconcileAction::PostCharge { attempt_id, token, amount_cents })
            },
            (ReconcilePhase::Charge, ReconcileEvent::Processor(None)) => {
                next.phase = ReconcilePhase::SecondLookup;
                let attempt_id = next.attempt_id;
                (next, ReconcileAction::Lookup { attempt_id })
            },
            _ => {
                next.phase = ReconcilePhase::Done;
                (next, ReconcileAction::Conclude(None))
            },
        }
    }
}

/// What the worker does once reconciliation has concluded.
pub enum WorkerDecision {
    /// Settle the attempt with the processor's final report.
    Settle(PspResult),
    /// Release the claim and try again after this many seconds.
    Retry(i64),
}

/// A final report (`succeeded` or `failed`) settles the attempt; anything
/// else leaves it pending and schedules another try.
pub fn after_reconciliation(result: Option<PspResult>, attempt_count: i32) -> (d: WorkerDecision)
    ensures
        result matches Some(p) ==> (is_final_status(p.status@) ==> d == WorkerDecision::Settle(p)),
        !(result matches Some(p) && is_final_status(p.status@)) ==> d == WorkerDecision::Retry(
            retry_delay(attempt_count as int) as i64,
        ),
{
    match result {
        Some(p) => {
            if same_text(p.status.as_str(), "succeeded") || same_text(p.status.as_str(), "failed") {
                WorkerDecision::Settle(p)
            } else {
                WorkerDecision::Retry(retry_delay_seconds(attempt_count))
            }
        },
        None => WorkerDecision::Retry(retry_delay_seconds(attempt_count)),
    }
}

/// How a settlement changes the attempt and its invoice.
pub enum Settlement {
    /// The attempt is no longer pending: nothing changes.
    AlreadySettled,
    /// The attempt succeeded with this processor reference; the invoice
    /// becomes paid and an `invoice.paid` event records its total.
    Paid { psp_ref: u128, total_cents: i64 },
    /// The attempt failed with this code; the invoice stays open and an
    /// `invoice.payment_failed` event records the code.
    Failed { failure_code: String },
}

impl Settlement {
    /// The event type that the settlement records, if any.
    pub fn event_type(&self) -> (t: Option<&'static str>)
        ensures
            self is AlreadySettled ==> t is None,
            self is Paid ==> (t matches Some(s) && s@ == "invoice.paid"@),
            self is Failed ==> (t matches Some(s) && s@ == "invoice.payment_failed"@),
    {
        match self {
            Settlement::AlreadySettled => None,
            Settlement::Paid { .. } => Some("invoice.paid"),
            Settlement::Failed { .. } => Some("invoice.payment_failed"),
        }
    }

    /// The invoice's state after the settlement, when it records one.
    pub fn invoice_state_after(&self) -> (s: Option<InvoiceState>)
        ensures
            self is AlreadySettled ==> s is None,
            self is Paid ==> s == Some(InvoiceState::Paid),
            self is Failed ==> s == Some(InvoiceState::Open),
    {
        match self {
            Settlement::AlreadySettled => None,
            Settlement::Paid { .. } => Some(InvoiceState::Paid),
            Settlement::Failed { .. } => Some(InvoiceState::Open),
        }
    }
}

/// Settles an attempt with the processor's final report, given the locked
/// attempt's status, the locked invoice's state and its total.
pub fn settle(attempt_status: &str, invoice_state: &str, total_cents: i64, outcome: PspResult) -> (r:
    Result<Settlement, ApiError>)
    ensures
        attempt_status@ != "pending"@ ==> (r matches Ok(s) && s is AlreadySettled),
        attempt_status@ == "pending"@ && state_named(invoice_state@) != Some(InvoiceState::Open)
            ==> (r matches Err(e) && e.is(
            STATUS_INTERNAL_SERVER_ERROR,
            "internal_error",
            "Internal server error",
        )),
        attempt_status@ == "pending"@ && state_named(invoice_state@) == Some(InvoiceState::Open)
            ==> {
            &&& outcome.status@ == "succeeded"@ && outcome.psp_ref is None ==> (r matches Err(e)
                && e.is(STATUS_INTERNAL_SERVER_ERROR, "internal_error", "Internal server error"))
            &&& outcome.psp_ref matches Some(p) ==> (outcome.status@ == "succeeded"@ ==> (r matches Ok(
                s,
            ) && s == (Settlement::Paid { psp_ref: p, total_cents })))
            &&& outcome.code matches Some(c) ==> (outcome.status@ != "succeeded"@ ==> (r matches Ok(
                s,
            ) && (s matches Settlement::Failed { failure_code } && failure_code@ == c@)))
            &&& outcome.status@ != "succeeded"@ && outcome.code is None ==> (r matches Ok(s) && (
            s matches Settlement::Failed { failure_code } && failure_code@
                == "processor_failed"@))
        },
{
    if !same_text(attempt_status, "pending") {
        return Ok(Settlement::AlreadySettled);
    }
    if InvoiceState::from_db(invoice_state) != Some(InvoiceState::Open) {
        return Err(ApiError::internal());
    }
    if same_text(outcome.status.as_str(), "succeeded") {
        match outcome.psp_ref {
            None => Err(ApiError::internal()),
            Some(psp_ref) => Ok(Settlement::Paid { psp_ref, total_cents }),
        }
    } else {
        let failure_code = match outcome.code {
            Some(c) => c,
            None => String::from_str("processor_failed"),
        };
        Ok(Settlement::Failed { failure_code })
    }
}

} // verus!
