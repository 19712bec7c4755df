//! Client library for the Zazu API.
//!
//! The library prepares every request the API takes (method, URL, headers,
//! JSON body), validates the inputs it can check before a request is made,
//! and reads the responses: successful bodies are returned as-is, non-2xx
//! responses become [`Error::Api`], list endpoints become cursor-paginated
//! [`Page`]s.
//!
//! ```ignore
//! let client = zazu_sdk::Client::builder().api_key("sk_live_...").build()?;
//! let request = client.entity().get();
//! ```

pub mod client;
pub mod encode;
pub mod error;
pub mod json;
pub mod page;
pub mod resources;
pub mod text;

pub use client::{
    read_parsed_response, read_response, Client, ClientBuilder, Method, Request, Response, DEFAULT_BASE_URL,
    DEFAULT_TIMEOUT_SECS, VERSION,
};
pub use encode::encode_component;
pub use error::{new_api_error, status_text, ApiError, Error, ErrorKind};
pub use json::JsonValue;
pub use page::{fetch_page, list_page, ListParams, Page, PageRequest, MAX_PER_PAGE};
pub use resources::accounts::{AccountListParams, Accounts, TransactionListParams};
pub use resources::beneficiaries::Beneficiaries;
pub use resources::checkout_sessions::CheckoutSessions;
pub use resources::customers::{CustomerListParams, Customers};
pub use resources::entity::Entity;
pub use resources::invoices::{InvoiceListParams, Invoices};
pub use resources::payment_links::{PaymentLinkListParams, PaymentLinks};
pub use resources::transfer_drafts::TransferDrafts;
pub use resources::webhook_endpoints::WebhookEndpoints;
pub use resources::{push_if_present, Attributes};
