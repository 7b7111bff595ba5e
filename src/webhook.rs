//! The chat service, the webhooks it confirms, and the messages posted to them.
use vstd::prelude::*;
use vstd::string::*;
use crate::address::{
    eq_ascii_case_insensitive, eq_ignore_ascii_case, has_prefix, parse_url, parsed_url,
    starts_with, strip_query_fragment, without_query_fragment,
};
use crate::error::{InvalidWebhookError, Monzo2DiscordError};

verus! {

/// The host of the chat service.
pub const DISCORD_HOST: &'static str = "discord.com";

/// The path under which the chat service serves its webhooks.
pub const WEBHOOK_PATH_PREFIX: &'static str = "/api/webhooks/";

/// The status with which the chat service confirms a webhook.
pub const STATUS_OK: u16 = 200;

/// The JSON text of a string: the quoted and escaped literal that
/// `serde_json` writes for it.
pub uninterp spec fn json_string_of(s: Seq<char>) -> Seq<char>;

/// Relies on `serde_json`'s serializer, through the `Display` of a JSON string
/// value: the compact JSON literal of `s`.
#[verifier::external_body]
fn json_string(s: &str) -> (r: String)
    ensures
        r@ == json_string_of(s@),
{
    serde_json::Value::String(s.to_string()).to_string()
}

/// Where the chat service is, and under which path it serves webhooks.
#[derive(Debug)]
pub struct Discord {
    host: String,
    webhook_path: String,
}

/// An address that passed the local checks and waits for the chat service
/// to confirm it with a GET.
#[derive(Debug)]
pub struct WebhookCheck {
    address: String,
}

/// A webhook that the chat service confirmed.
#[derive(Debug)]
pub struct Webhook {
    url: String,
}

/// A post to a webhook: where it goes and the JSON body it carries.
#[derive(Debug)]
pub struct WebhookPost {
    pub url: String,
    pub body: String,
}

impl View for WebhookCheck {
    type V = Seq<char>;

    closed spec fn view(&self) -> Seq<char> {
        self.address@
    }
}

impl View for Webhook {
    type V = Seq<char>;

    closed spec fn view(&self) -> Seq<char> {
        self.url@
    }
}

/// Whether a parsed address is one of the service's webhooks: its host is
/// the service's, ignoring ASCII case, and its path lies under the webhook path.
pub open spec fn webhook_allowed(
    host: Seq<char>,
    webhook_path: Seq<char>,
    p: (Seq<char>, Option<Seq<char>>, Seq<char>),
) -> bool {
    &&& match p.1 {
        Some(h) => eq_ascii_case_insensitive(h, host),
        None => false,
    }
    &&& has_prefix(p.2, webhook_path)
}

/// The JSON body that carries `message` as a chat message.
pub open spec fn message_body(message: Seq<char>) -> Seq<char> {
    "{\"content\":"@ + json_string_of(message) + "}"@
}

impl Default for Discord {
    fn default() -> (r: Self)
        ensures
            r.host() == DISCORD_HOST@,
            r.webhook_path() == WEBHOOK_PATH_PREFIX@,
    {
        Discord {
            host: String::from_str(DISCORD_HOST),
            webhook_path: String::from_str(WEBHOOK_PATH_PREFIX),
        }
    }
}

impl Discord {
    pub closed spec fn host(&self) -> Seq<char> {
        self.host@
    }

    pub closed spec fn webhook_path(&self) -> Seq<char> {
        self.webhook_path@
    }

    /// The service found at `service_url`, with the usual webhook path;
    /// `None` where the address does not parse or has no host.
    pub fn new(service_url: &str) -> (r: Option<Discord>)
        ensures
            match parsed_url(service_url@) {
                Some((_, Some(h), _)) => r matches Some(d) && d.host() == h
                    && d.webhook_path() == WEBHOOK_PATH_PREFIX@,
                _ => r is None,
            },
    {
        match parse_url(service_url) {
            Ok(p) => match p.host {
                Some(h) => Some(Discord { host: h, webhook_path: String::from_str(WEBHOOK_PATH_PREFIX) }),
                None => None,
            },
            Err(_) => None,
        }
    }

    /// Checks an address before the service is asked about it: it must parse,
    /// and its host and path must be the service's. On success the result is
    /// the address without its query and fragment, which the caller then
    /// confirms with one GET; on failure no request is owed.
    pub fn check_webhook(&self, webhook: &str) -> (r: Result<WebhookCheck, InvalidWebhookError>)
        ensures
            match parsed_url(webhook@) {
                None => r matches Err(InvalidWebhookError::UrlParseError(_)),
                Some(p) => if webhook_allowed(self.host(), self.webhook_path(), p) {
                    r matches Ok(c) && c@ == strip_query_fragment(p.0)
                } else {
                    r matches Err(InvalidWebhookError::DisallowedUrl { given, configured })
                        && given@ == p.0 && configured@ == self.host()
                },
            },
    {
        let p = match parse_url(webhook) {
            Ok(p) => p,
            Err(e) => return Err(InvalidWebhookError::UrlParseError(e)),
        };
        let host_ok = match &p.host {
            Some(h) => eq_ignore_ascii_case(h.as_str(), self.host.as_str()),
            None => false,
        };
        if !host_ok || !starts_with(p.path.as_str(), self.webhook_path.as_str()) {
            return Err(
                InvalidWebhookError::DisallowedUrl {
                    given: p.serialization,
                    configured: self.host.clone(),
                },
            );
        }
        Ok(WebhookCheck { address: without_query_fragment(p.serialization.as_str()) })
    }

    /// Turns the service's answer to the check's GET into a webhook: a 200
    /// confirms it, any other status rejects it.
    pub fn create_webhook(&self, check: WebhookCheck, status: u16) -> (r: Result<Webhook, InvalidWebhookError>)
        ensures
            status == STATUS_OK ==> (r matches Ok(w) && w@ == check@),
            status != STATUS_OK ==> r == Err::<Webhook, InvalidWebhookError>(
                InvalidWebhookError::DiscordError { status },
            ),
    {
        if status == STATUS_OK {
            Ok(Webhook { url: check.address })
        } else {
            Err(InvalidWebhookError::DiscordError { status })
        }
    }
}

impl WebhookCheck {
    /// The address that the service is asked about.
    pub fn address(&self) -> (r: &str)
        ensures
            r@ == self@,
    {
        self.address.as_str()
    }
}

impl Webhook {
    /// The webhook's address.
    pub fn url(&self) -> (r: &str)
        ensures
            r@ == self@,
    {
        self.url.as_str()
    }

    /// The post that relays `message` to this webhook.
    pub fn post_request(&self, message: &str) -> (r: WebhookPost)
        ensures
            r.url@ == self@,
            r.body@ == message_body(message@),
    {
        let mut body = String::from_str("{\"content\":");
        let quoted = json_string(message);
        body.append(quoted.as_str());
        body.append("}");
        WebhookPost { url: self.url.clone(), body }
    }

    /// The outcome of a post, from the status it was answered with: any
    /// success status delivers the message; any other fails, carrying the status.
    pub fn post_result(status: u16) -> (r: Result<(), Monzo2DiscordError>)
        ensures
            200 <= status <= 299 ==> r is Ok,
            !(200 <= status <= 299) ==> r == Err::<(), Monzo2DiscordError>(
                Monzo2DiscordError::WebhookNotExecuted { status },
            ),
    {
        if 200 <= status && status <= 299 {
            Ok(())
        } else {
            Err(Monzo2DiscordError::WebhookNotExecuted { status })
        }
    }
}

} // verus!
