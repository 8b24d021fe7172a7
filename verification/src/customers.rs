//! Customer input validation.

use vstd::prelude::*;
use vstd::utf8::encode_utf8;
use crate::error::{ApiError, STATUS_UNPROCESSABLE_ENTITY};
use crate::text::{trim, trimmed, contains_char, utf8_len_at_most};

verus! {

/// A customer's name and email, trimmed.
pub struct CustomerFields {
    pub name: String,
    pub email: String,
}

/// A trimmed name of 1..=200 bytes and a trimmed email of at most 320 bytes
/// that contains `@`.
pub open spec fn customer_acceptable(name: Seq<char>, email: Seq<char>) -> bool {
    &&& trimmed(name).len() > 0
    &&& encode_utf8(trimmed(name)).len() <= 200
    &&& trimmed(email).contains('@')
    &&& encode_utf8(trimmed(email)).len() <= 320
}

/// Validates a new customer's name and email; both are stored trimmed.
pub fn validate_new_customer(name: &str, email: &str) -> (r: Result<CustomerFields, ApiError>)
    ensures
        customer_acceptable(name@, email@) ==> (r matches Ok(c) && c.name@ == trimmed(name@)
            && c.email@ == trimmed(email@)),
        // Only emptiness, byte length and `@` decide: any characters may appear.
        trimmed(name@).len() > 0 && encode_utf8(trimmed(name@)).len() <= 200 && trimmed(
            email@,
        ).contains('@') && encode_utf8(trimmed(email@)).len() <= 320 ==> r is Ok,
        r is Ok ==> trimmed(name@).len() > 0 && encode_utf8(trimmed(name@)).len() <= 200
            && trimmed(email@).contains('@') && encode_utf8(trimmed(email@)).len() <= 320,
        !customer_acceptable(name@, email@) ==> (r matches Err(e) && e.is(
            STATUS_UNPROCESSABLE_ENTITY,
            "invalid_request",
            "Valid name and email are required",
        )),
{
    let name = trim(name);
    let email = trim(email);
    if name.unicode_len() == 0 || !utf8_len_at_most(name, 200) || !contains_char(email, '@')
        || !utf8_len_at_most(email, 320) {
        return Err(ApiError::bad("Valid name and email are required"));
    }
    Ok(CustomerFields { name: String::from_str(name), email: String::from_str(email) })
}

/// A customer is accepted exactly when its trimmed name is nonempty and at
/// most 200 bytes, and its trimmed email holds `@` and is at most 320 bytes;
/// no other property of the text (such as which characters it holds) matters.
pub proof fn customer_rules_are_length_and_at_sign(name: Seq<char>, email: Seq<char>)
    ensures
        customer_acceptable(name, email) <==> (trimmed(name).len() > 0 && encode_utf8(
            trimmed(name),
        ).len() <= 200 && trimmed(email).contains('@') && encode_utf8(trimmed(email)).len()
            <= 320),
{
}

} // verus!
