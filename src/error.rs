//! The library's errors, and the HTTP status that each one answers with.
use vstd::prelude::*;

verus! {

/// Why an address was not accepted as a webhook.
#[derive(Debug)]
pub enum InvalidWebhookError {
    /// The chat service did not confirm the address: its check answered with `status`.
    DiscordError { status: u16 },
    /// The address parsed, but its host or path is not the chat service's.
    DisallowedUrl { given: String, configured: String },
    /// The address is not a URL.
    UrlParseError(url::ParseError),
}

/// The errors that the relay reports to its caller.
#[derive(Debug)]
pub enum Monzo2DiscordError {
    /// The user-provided webhook is not valid.
    InvalidWebhook(InvalidWebhookError),
    /// A request could not be made or answered.
    WebError(String),
    /// An outgoing post was answered with a status that is not a success.
    WebhookNotExecuted { status: u16 },
}

/// A request the client got wrong.
pub const STATUS_BAD_REQUEST: u16 = 400;

/// A failure on this server's side.
pub const STATUS_INTERNAL_SERVER_ERROR: u16 = 500;

/// A service this server depends on did not do its part.
pub const STATUS_FAILED_DEPENDENCY: u16 = 424;

impl Monzo2DiscordError {
    /// The HTTP status that reports this error to a client.
    pub open spec fn spec_status_code(&self) -> u16 {
        match self {
            Monzo2DiscordError::InvalidWebhook(_) => STATUS_BAD_REQUEST,
            Monzo2DiscordError::WebError(_) => STATUS_INTERNAL_SERVER_ERROR,
            Monzo2DiscordError::WebhookNotExecuted { .. } => STATUS_FAILED_DEPENDENCY,
        }
    }

    /// The HTTP status that reports this error to a client: a client error
    /// for a refused webhook, a server error for a failed request, a failed
    /// dependency for a post the chat service did not accept.
    pub fn status_code(&self) -> (r: u16)
        ensures
            r == self.spec_status_code(),
    {
        match self {
            Monzo2DiscordError::InvalidWebhook(_) => STATUS_BAD_REQUEST,
            Monzo2DiscordError::WebError(_) => STATUS_INTERNAL_SERVER_ERROR,
            Monzo2DiscordError::WebhookNotExecuted { .. } => STATUS_FAILED_DEPENDENCY,
        }
    }
}

} // verus!
