//! Links a finance account to a chat webhook through an OAuth authorization,
//! and relays messages to that webhook.
//!
//! - `address`: what the `url` crate makes of an address, and the checks on it.
//! - `webhook`: the chat service, the webhooks it confirms, the posts to them.
//! - `pending`: the attempts that wait for their callback, by anti-forgery token.
//! - `flow`: the login and callback steps around the store.
//! - `error`: the errors and the HTTP statuses that report them.
pub mod address;
pub mod error;
pub mod flow;
pub mod pending;
pub mod webhook;
