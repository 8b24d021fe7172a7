use dodo_assignment::customers::validate_new_customer;
use dodo_assignment::error::ApiError;
use dodo_assignment::invoices::{
    check_no_pending, check_state_filter, check_voidable, validate_invoice_items, InvoiceState,
    NewInvoiceItem,
};
use dodo_assignment::paging::event_cursor;
use dodo_assignment::{page, ApiJson, ApiPath, ApiQuery};

fn item(description: &str, quantity: i64, unit: i64) -> NewInvoiceItem {
    NewInvoiceItem { description: description.to_string(), quantity, unit_amount_cents: unit }
}

fn check_error(e: &ApiError, status: u16, code: &str, message: &str) {
    assert_eq!(e.status, status);
    assert_eq!(e.code, code);
    assert_eq!(e.message, message);
}

#[test]
fn page_defaults_and_bounds() {
    assert_eq!(page(None, None).ok(), Some((50, 0)));
    assert_eq!(page(Some(1), Some(0)).ok(), Some((1, 0)));
    assert_eq!(page(Some(100), Some(7)).ok(), Some((100, 7)));
    for (l, o) in [(Some(0), None), (Some(101), None), (None, Some(-1))] {
        let e = page(l, o).err().unwrap();
        check_error(&e, 422, "invalid_request", "limit must be 1..100 and offset nonnegative");
    }
}

#[test]
fn event_cursor_defaults_and_bounds() {
    assert_eq!(event_cursor(None, None).ok(), Some((0, 50)));
    assert_eq!(event_cursor(Some(12), Some(3)).ok(), Some((12, 3)));
    let e = event_cursor(Some(-1), None).err().unwrap();
    check_error(&e, 422, "invalid_request", "Invalid event cursor or limit");
    assert!(event_cursor(None, Some(101)).is_err());
}

#[test]
fn invoice_total_is_quantity_times_unit_amount() {
    let v = validate_invoice_items(&vec![item("Two units", 2, 1250)]).ok().unwrap();
    assert_eq!(v.total_cents, 2500);
    let v = validate_invoice_items(&vec![item(" A ", 3, 100), item("B", 1, 7)]).ok().unwrap();
    assert_eq!(v.total_cents, 307);
    assert_eq!(v.lines.len(), 2);
    assert_eq!(v.lines[0].description, "A");
    assert_eq!(v.lines[0].quantity, 3);
    assert_eq!(v.lines[1].unit_amount_cents, 7);
}

#[test]
fn invoice_item_count_must_be_one_to_hundred() {
    let e = validate_invoice_items(&vec![]).err().unwrap();
    check_error(&e, 422, "invalid_request", "Invoice requires 1..100 items");
    let many: Vec<NewInvoiceItem> = (0..101).map(|_| item("x", 1, 1)).collect();
    assert!(validate_invoice_items(&many).is_err());
    let hundred: Vec<NewInvoiceItem> = (0..100).map(|_| item("x", 1, 1)).collect();
    assert_eq!(validate_invoice_items(&hundred).ok().unwrap().total_cents, 100);
}

#[test]
fn invoice_items_need_description_and_positive_amounts() {
    let msg = "Each item needs a description, positive quantity and positive unit amount";
    for bad in [item("  ", 1, 1), item("x", 0, 1), item("x", 1, -5), item(&"y".repeat(501), 1, 1)] {
        let e = validate_invoice_items(&vec![item("ok", 1, 1), bad]).err().unwrap();
        check_error(&e, 422, "invalid_request", msg);
    }
    assert!(validate_invoice_items(&vec![item(&"y".repeat(500), 1, 1)]).is_ok());
}

#[test]
fn invoice_overflow_is_rejected_in_item_order() {
    let e = validate_invoice_items(&vec![item("a", i64::MAX, 2)]).err().unwrap();
    check_error(&e, 422, "invalid_request", "Amount overflow");
    let e = validate_invoice_items(&vec![item("a", i64::MAX, 1), item("b", 1, 1)]).err().unwrap();
    check_error(&e, 422, "invalid_request", "Amount overflow");
    // The overflow comes first, before the later invalid item is seen.
    let e = validate_invoice_items(&vec![item("a", i64::MAX, 1), item("b", 1, 1), item("", 1, 1)])
        .err()
        .unwrap();
    assert_eq!(e.message, "Amount overflow");
    assert_eq!(
        validate_invoice_items(&vec![item("a", i64::MAX, 1)]).ok().unwrap().total_cents,
        i64::MAX
    );
}

#[test]
fn invoice_states_round_trip_through_text() {
    for s in [InvoiceState::Open, InvoiceState::Paid, InvoiceState::Void] {
        assert_eq!(InvoiceState::from_db(s.as_str()), Some(s));
    }
    assert_eq!(InvoiceState::from_db("OPEN"), None);
}

#[test]
fn only_open_invoices_without_pending_payment_can_be_voided() {
    assert!(check_voidable(Some("open")).is_ok());
    let e = check_voidable(Some("paid")).err().unwrap();
    check_error(&e, 409, "invoice_not_payable", "Only open invoices can be voided");
    assert!(check_voidable(Some("void")).is_err());
    let e = check_voidable(None).err().unwrap();
    check_error(&e, 404, "not_found", "Resource not found");
    let e = check_no_pending(true).err().unwrap();
    check_error(&e, 409, "payment_in_progress", "Invoice has a pending payment");
    assert!(check_no_pending(false).is_ok());
}

#[test]
fn invoice_state_filter_accepts_three_states() {
    assert!(check_state_filter(None).is_ok());
    for s in ["open", "paid", "void"] {
        assert!(check_state_filter(Some(s)).is_ok());
    }
    let e = check_state_filter(Some("pending")).err().unwrap();
    check_error(&e, 422, "invalid_request", "Invalid invoice state filter");
}

#[test]
fn customers_are_trimmed_and_checked() {
    let c = validate_new_customer("  Ada Example ", " ada@example.test ").ok().unwrap();
    assert_eq!(c.name, "Ada Example");
    assert_eq!(c.email, "ada@example.test");
    let msg = "Valid name and email are required";
    let e = validate_new_customer("   ", "a@b").err().unwrap();
    check_error(&e, 422, "invalid_request", msg);
    assert!(validate_new_customer("Ada", "no-at-sign").is_err());
    assert!(validate_new_customer(&"n".repeat(201), "a@b").is_err());
    assert!(validate_new_customer(&"n".repeat(200), "a@b").is_ok());
    assert!(validate_new_customer("Ada", &format!("{}@b", "e".repeat(319))).is_err());
}

#[test]
fn error_constructors_and_text() {
    let e = ApiError::unauthorized();
    check_error(&e, 401, "unauthorized", "A valid API key is required");
    check_error(&ApiError::not_found(), 404, "not_found", "Resource not found");
    check_error(&ApiError::internal(), 500, "internal_error", "Internal server error");
    check_error(&ApiError::bad("nope"), 422, "invalid_request", "nope");
    check_error(&ApiError::conflict("c", "m"), 409, "c", "m");
    check_error(&ApiError::method_not_allowed(), 405, "method_not_allowed", "Method not allowed");
    assert_eq!(ApiError::not_found().display(), "not_found: Resource not found");
    assert_eq!(ApiError::require_found(Some(3)).ok(), Some(3));
    assert!(ApiError::require_found::<u8>(None).is_err());
}

#[test]
fn extractor_rejections_use_their_codes() {
    check_error(&ApiJson::<u8>::rejection(422, "bad body"), 422, "invalid_json", "bad body");
    check_error(&ApiPath::<u8>::rejection(400, "bad path"), 400, "invalid_path", "bad path");
    check_error(&ApiQuery::<u8>::rejection(400, "bad q"), 400, "invalid_query", "bad q");
}
