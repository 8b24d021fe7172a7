//! Invoice and payment service core: request validation, invoice totals,
//! idempotent payment admission, payment reconciliation with the processor,
//! and webhook signing and retry policy.

pub mod api_keys;
pub mod codec;
pub mod customers;
pub mod error;
pub mod extract;
pub mod invoices;
pub mod paging;
pub mod payment_worker;
pub mod payments;
pub mod psp;
pub mod text;
pub mod webhooks;

pub use codec::{random_bytes, sha256};
pub use error::ApiError;
pub use extract::{ApiJson, ApiPath, ApiQuery};
pub use paging::page;
