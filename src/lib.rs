//! Client-side logic for a disposable e-mail provider: request descriptions,
//! form-encoded queries, the retry and token policies, and the parsing of the
//! provider's responses into mailboxes and messages.
//!
//! The library performs no I/O. Each network operation is split in two: a
//! function that prepares the query to send, and one that takes what the
//! provider answered. The decisions between sends (retrying a transient
//! error, replaying a request once after renewing an expired token) are
//! small state machines that the caller drives.
pub mod endpoint;
pub mod errors;
pub mod http;
pub mod mail;
pub mod markup;
pub mod text;
pub mod token;

pub use endpoint::{GmailnatorEndpoint, GmailnatorRequest, HttpMethod, PreparedQuery};
pub use errors::GmailnatorError;
pub use http::{QueryAttempts, QueryStep, ResponseOutcome, UrlQuery};
pub use mail::{GmailnatorInbox, MailMessage, MailMessageIterator};
pub use text::decimal_string;
pub use token::{
    get_token_sync, renew_token, set_token_sync, token_needs_renewal, ReplayStep, TokenReplay,
    TokenStore,
};
