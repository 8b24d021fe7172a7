//! Invoices: line-item validation, the server-computed total, and the
//! invoice state machine (`open` to `paid` or `void`, both terminal).

use vstd::prelude::*;
use vstd::utf8::encode_utf8;
use crate::error::{ApiError, STATUS_CONFLICT, STATUS_UNPROCESSABLE_ENTITY, STATUS_NOT_FOUND};
use crate::text::{trim, trimmed, same_text, utf8_len_at_most};

verus! {

/// The state of an invoice.
#[derive(PartialEq, Eq, Structural, Clone, Copy, Debug)]
pub enum InvoiceState {
    Open,
    Paid,
    Void,
}

/// The state that a stored state text names, if any.
pub open spec fn state_named(s: Seq<char>) -> Option<InvoiceState> {
    if s == "open"@ {
        Some(InvoiceState::Open)
    } else if s == "paid"@ {
        Some(InvoiceState::Paid)
    } else if s == "void"@ {
        Some(InvoiceState::Void)
    } else {
        None
    }
}

impl InvoiceState {
    /// The state's stored text.
    pub open spec fn text(self) -> Seq<char> {
        match self {
            InvoiceState::Open => "open"@,
            InvoiceState::Paid => "paid"@,
            InvoiceState::Void => "void"@,
        }
    }

    /// The state's stored text.
    pub fn as_str(&self) -> (s: &'static str)
        ensures
            s@ == self.text(),
    {
        match self {
            InvoiceState::Open => "open",
            InvoiceState::Paid => "paid",
            InvoiceState::Void => "void",
        }
    }

    /// The state that a stored text names; `None` for any other text.
    pub fn from_db(s: &str) -> (r: Option<InvoiceState>)
        ensures
            r == state_named(s@),
    {
        if same_text(s, "open") {
            Some(InvoiceState::Open)
        } else if same_text(s, "paid") {
            Some(InvoiceState::Paid)
        } else if same_text(s, "void") {
            Some(InvoiceState::Void)
        } else {
            None
        }
    }
}

/// A line item as a client submits it.
pub struct NewInvoiceItem {
    pub description: String,
    pub quantity: i64,
    pub unit_amount_cents: i64,
}

/// A validated line item, its description trimmed.
pub struct InvoiceLine {
    pub description: String,
    pub quantity: i64,
    pub unit_amount_cents: i64,
}

/// A validated invoice: its lines and the total that the server computed.
pub struct ValidInvoice {
    pub total_cents: i64,
    pub lines: Vec<InvoiceLine>,
}

pub open spec fn max_description_bytes() -> int {
    500
}

/// An item is acceptable when its trimmed description is nonempty, its
/// description takes at most 500 bytes, and quantity and unit amount are positive.
pub open spec fn item_acceptable(item: NewInvoiceItem) -> bool {
    &&& trimmed(item.description@).len() > 0
    &&& encode_utf8(item.description@).len() <= max_description_bytes()
    &&& item.quantity > 0
    &&& item.unit_amount_cents > 0
}

/// The extended amount of a line: quantity times unit amount.
pub open spec fn line_amount(item: NewInvoiceItem) -> int {
    item.quantity * item.unit_amount_cents
}

/// The sum of the extended amounts of `items`.
pub open spec fn sum_amounts(items: Seq<NewInvoiceItem>) -> int
    decreases items.len(),
{
    if items.len() == 0 {
        0
    } else {
        sum_amounts(items.drop_last()) + line_amount(items.last())
    }
}

/// Item `k` stops the computation: it is not acceptable, or the running
/// total through it leaves the 64-bit range.
pub open spec fn fails_at(items: Seq<NewInvoiceItem>, k: int) -> bool {
    !item_acceptable(items[k]) || sum_amounts(items.take(k + 1)) > i64::MAX
}

/// The first index at or after `i` at which the computation stops, or the length.
pub open spec fn first_failure(items: Seq<NewInvoiceItem>, i: int) -> int
    decreases items.len() - i,
{
    if 0 <= i < items.len() {
        if fails_at(items, i) {
            i
        } else {
            first_failure(items, i + 1)
        }
    } else {
        i
    }
}

pub open spec fn item_count_acceptable(items: Seq<NewInvoiceItem>) -> bool {
    1 <= items.len() <= 100
}

/// Validates the items of a new invoice and computes its total in cents.
/// The items are checked in order; the first that is not acceptable, or that
/// carries the running total past `i64::MAX`, decides the error.
pub fn validate_invoice_items(items: &Vec<NewInvoiceItem>) -> (r: Result<ValidInvoice, ApiError>)
    ensures
        !item_count_acceptable(items@) ==> (r matches Err(e) && e.is(
            STATUS_UNPROCESSABLE_ENTITY,
            "invalid_request",
            "Invoice requires 1..100 items",
        )),
        item_count_acceptable(items@) && first_failure(items@, 0) < items@.len()
            && !item_acceptable(items@[first_failure(items@, 0)]) ==> (r matches Err(e) && e.is(
            STATUS_UNPROCESSABLE_ENTITY,
            "invalid_request",
            "Each item needs a description, positive quantity and positive unit amount",
        )),
        item_count_acceptable(items@) && first_failure(items@, 0) < items@.len()
            && item_acceptable(items@[first_failure(items@, 0)]) ==> (r matches Err(e) && e.is(
            STATUS_UNPROCESSABLE_ENTITY,
            "invalid_request",
            "Amount overflow",
        )),
        // An accepted invoice has positive quantities, positive unit amounts and a positive total.
        r matches Ok(v) ==> v.total_cents > 0 && forall|k: int|
            0 <= k < v.lines@.len() ==> (#[trigger] v.lines@[k]).quantity > 0
                && v.lines@[k].unit_amount_cents > 0,
        item_count_acceptable(items@) && first_failure(items@, 0) == items@.len() ==> (r matches Ok(
            v,
        ) && v.total_cents == sum_amounts(items@) && v.lines@.len() == items@.len() && forall|
            k: int,
        |
            0 <= k < items@.len() ==> {
                &&& (#[trigger] v.lines@[k]).description@ == trimmed(items@[k].description@)
                &&& v.lines@[k].quantity == items@[k].quantity
                &&& v.lines@[k].unit_amount_cents == items@[k].unit_amount_cents
            }),
{
    let n = items.len();
    if n == 0 || n > 100 {
        return Err(ApiError::bad("Invoice requires 1..100 items"));
    }
    let mut total: i64 = 0;
    let mut lines: Vec<InvoiceLine> = Vec::new();
    let mut i: usize = 0;
    while i < n
        invariant
            n == items@.len(),
            1 <= n <= 100,
            0 <= i <= n,
            first_failure(items@, 0) == first_failure(items@, i as int),
            forall|k: int| 0 <= k < i ==> #[trigger] item_acceptable(items@[k]),
            total == sum_amounts(items@.take(i as int)),
            total >= 0,
            i > 0 ==> total > 0,
            lines@.len() == i,
            forall|k: int|
                0 <= k < i ==> {
                    &&& (#[trigger] lines@[k]).description@ == trimmed(items@[k].description@)
                    &&& lines@[k].quantity == items@[k].quantity
                    &&& lines@[k].unit_amount_cents == items@[k].unit_amount_cents
                },
        decreases n - i,
    {
        let item = &items[i];
        let description = trim(item.description.as_str());
        assert(items@.take(i + 1).drop_last() =~= items@.take(i as int));
        if description.unicode_len() == 0 || !utf8_len_at_most(item.description.as_str(), 500)
            || item.quantity <= 0 || item.unit_amount_cents <= 0 {
            assert(fails_at(items@, i as int));
            return Err(
                ApiError::bad(
                    "Each item needs a description, positive quantity and positive unit amount",
                ),
            );
        }
        assert(item_acceptable(items@[i as int]));
        let amount = match item.quantity.checked_mul(item.unit_amount_cents) {
            Some(a) => a,
            None => {
                assert(fails_at(items@, i as int));
                return Err(ApiError::bad("Amount overflow"));
            },
        };
        assert(amount > 0) by (nonlinear_arith)
            requires
                amount == item.quantity * item.unit_amount_cents,
                item.quantity > 0,
                item.unit_amount_cents > 0,
        ;
        total = match total.checked_add(amount) {
            Some(t) => t,
            None => {
                assert(fails_at(items@, i as int));
                return Err(ApiError::bad("Amount overflow"));
            },
        };
        assert(!fails_at(items@, i as int));
        lines.push(
            InvoiceLine {
                description: String::from_str(description),
                quantity: item.quantity,
                unit_amount_cents: item.unit_amount_cents,
            },
        );
        i = i + 1;
    }
    assert(items@.take(n as int) =~= items@);
    assert forall|k: int| 0 <= k < lines@.len() implies (#[trigger] lines@[k]).quantity > 0
        && lines@[k].unit_amount_cents > 0 by {
        assert(item_acceptable(items@[k]));
    }
    Ok(ValidInvoice { total_cents: total, lines })
}

/// Every acceptable item has positive quantity and unit amount, so a positive
/// extended amount, and every nonempty run of acceptable items sums to a
/// positive total.
pub proof fn acceptable_items_have_positive_total(items: Seq<NewInvoiceItem>)
    requires
        forall|k: int| 0 <= k < items.len() ==> #[trigger] item_acceptable(items[k]),
    ensures
        forall|k: int|
            0 <= k < items.len() ==> (#[trigger] items[k]).quantity > 0 && items[k].unit_amount_cents
                > 0 && line_amount(items[k]) > 0,
        items.len() > 0 ==> sum_amounts(items) > 0,
        sum_amounts(items) >= 0,
    decreases items.len(),
{
    assert forall|k: int| 0 <= k < items.len() implies (#[trigger] items[k]).quantity > 0
        && items[k].unit_amount_cents > 0 && line_amount(items[k]) > 0 by {
        assert(item_acceptable(items[k]));
        let it = items[k];
        assert(it.quantity * it.unit_amount_cents > 0) by (nonlinear_arith)
            requires
                it.quantity > 0,
                it.unit_amount_cents > 0,
        ;
    }
    if items.len() > 0 {
        let init = items.drop_last();
        assert forall|k: int| 0 <= k < init.len() implies #[trigger] item_acceptable(init[k]) by {
            assert(init[k] == items[k]);
        }
        acceptable_items_have_positive_total(init);
        assert(line_amount(items[items.len() - 1]) > 0);
    }
}

/// Only an open invoice can be voided; a missing invoice is not found.
pub fn check_voidable(state: Option<&str>) -> (r: Result<(), ApiError>)
    ensures
        state is None ==> (r matches Err(e) && e.is(STATUS_NOT_FOUND, "not_found", "Resource not found")),
        state matches Some(s) && state_named(s@) == Some(InvoiceState::Open) ==> r is Ok,
        state matches Some(s) && state_named(s@) != Some(InvoiceState::Open) ==> (r matches Err(e)
            && e.is(STATUS_CONFLICT, "invoice_not_payable", "Only open invoices can be voided")),
{
    match state {
        None => Err(ApiError::not_found()),
        Some(s) => {
            if InvoiceState::from_db(s) == Some(InvoiceState::Open) {
                Ok(())
            } else {
                Err(ApiError::conflict("invoice_not_payable", "Only open invoices can be voided"))
            }
        },
    }
}

/// An invoice with a pending payment attempt accepts neither a new payment nor a void.
pub fn check_no_pending(pending: bool) -> (r: Result<(), ApiError>)
    ensures
        !pending ==> r is Ok,
        pending ==> (r matches Err(e) && e.is(
            STATUS_CONFLICT,
            "payment_in_progress",
            "Invoice has a pending payment",
        )),
{
    if pending {
        Err(ApiError::conflict("payment_in_progress", "Invoice has a pending payment"))
    } else {
        Ok(())
    }
}

/// The `state` filter of the invoice list accepts `open`, `paid` and `void`.
pub fn check_state_filter(state: Option<&str>) -> (r: Result<(), ApiError>)
    ensures
        state is None || state_named(state->0@) is Some ==> r is Ok,
        state matches Some(s) && state_named(s@) is None ==> (r matches Err(e) && e.is(
            STATUS_UNPROCESSABLE_ENTITY,
            "invalid_request",
            "Invalid invoice state filter",
        )),
{
    match state {
        None => Ok(()),
        Some(s) => {
            if InvoiceState::from_db(s).is_some() {
                Ok(())
            } else {
                Err(ApiError::bad("Invalid invoice state filter"))
            }
        },
    }
}

} // verus!
