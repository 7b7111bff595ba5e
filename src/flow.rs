//! The authorization flow: a login stores the confirmed webhook under the
//! attempt's anti-forgery token; the provider's callback consumes that entry
//! and, if it was there, leads to the code exchange.
use vstd::prelude::*;
use crate::pending::{
    put_spec, take_spec, unexpired, deadline_after, PendingAuthorizationStore, PendingMap,
    PutError, TakeError,
};
use crate::webhook::{Discord, Webhook};

verus! {

/// The authorization completed.
pub const STATUS_SUCCESS: u16 = 200;

/// The callback matches no waiting attempt.
pub const STATUS_GONE: u16 = 410;

/// The provider refused the code.
pub const STATUS_EXPECTATION_FAILED: u16 = 417;

/// How an authorization attempt ended.
#[derive(Debug)]
pub enum CallbackOutcome {
    /// The provider issued a token: the relay to this webhook may start.
    Completed(Webhook),
    /// The callback matches no waiting attempt: forged, replayed or too late.
    Gone(TakeError),
    /// The attempt was genuine, but the provider refused the code.
    Rejected,
}

/// What the caller does next with a callback.
#[derive(Debug)]
pub enum CallbackStep {
    /// Exchange the code with the provider, for the attempt of this webhook.
    Exchange(Webhook),
    /// Nothing more to do: the attempt ended.
    Done(CallbackOutcome),
}

/// The view of a callback step, as `take_spec` states what came out of the store.
pub open spec fn step_view(r: CallbackStep) -> Result<Seq<char>, TakeError> {
    match r {
        CallbackStep::Exchange(w) => Ok(w@),
        CallbackStep::Done(CallbackOutcome::Gone(e)) => Err(e),
        CallbackStep::Done(_) => Err(TakeError::NotFound),
    }
}

impl CallbackOutcome {
    pub open spec fn spec_status_code(&self) -> u16 {
        match self {
            CallbackOutcome::Completed(_) => STATUS_SUCCESS,
            CallbackOutcome::Gone(_) => STATUS_GONE,
            CallbackOutcome::Rejected => STATUS_EXPECTATION_FAILED,
        }
    }

    /// The HTTP status that answers the callback.
    pub fn status_code(&self) -> (r: u16)
        ensures
            r == self.spec_status_code(),
    {
        match self {
            CallbackOutcome::Completed(_) => STATUS_SUCCESS,
            CallbackOutcome::Gone(_) => STATUS_GONE,
            CallbackOutcome::Rejected => STATUS_EXPECTATION_FAILED,
        }
    }
}

/// The chat service that webhooks are checked against, and the attempts that
/// wait for their callback.
pub struct AuthorizationFlow {
    discord: Discord,
    pending: PendingAuthorizationStore,
}

impl AuthorizationFlow {
    pub closed spec fn wf(&self) -> bool {
        self.pending.wf()
    }

    /// The attempts that wait, by token.
    pub closed spec fn pending(&self) -> PendingMap {
        self.pending@
    }

    pub closed spec fn service(&self) -> Discord {
        self.discord
    }

    /// A flow against `discord` with no attempt waiting.
    pub fn new(discord: Discord) -> (r: Self)
        ensures
            r.wf(),
            r.pending() == PendingMap::empty(),
            r.service() == discord,
    {
        AuthorizationFlow { discord, pending: PendingAuthorizationStore::new() }
    }

    /// The chat service that login addresses are checked against.
    pub fn discord(&self) -> (r: &Discord)
        ensures
            *r == self.service(),
    {
        &self.discord
    }

    /// How many attempts wait for their callback.
    pub fn pending_len(&self) -> (r: usize)
        requires
            self.wf(),
        ensures
            r == self.pending().len(),
    {
        self.pending.len()
    }

    /// Whether an attempt waits under `token`.
    pub fn is_pending(&self, token: &str) -> (r: bool)
        requires
            self.wf(),
        ensures
            r == self.pending().contains_key(token@),
    {
        self.pending.contains(token)
    }

    /// Starts the authorization of a confirmed webhook: attempts whose time
    /// ran out are evicted, then the webhook is stored under the attempt's
    /// `token`, and the provider's `redirect_url` is handed back for the
    /// caller to redirect to. A token already in use stores nothing.
    pub fn begin_authorization(
        &mut self,
        webhook: Webhook,
        token: String,
        redirect_url: String,
        now: u64,
    ) -> (r: Result<String, PutError>)
        requires
            old(self).wf(),
        ensures
            final(self).wf(),
            final(self).service() == old(self).service(),
            (final(self).pending(), r is Ok) == put_spec(
                unexpired(old(self).pending(), now),
                token@,
                webhook@,
                now,
            ),
            r matches Ok(u) ==> u@ == redirect_url@,
            r is Err ==> r == Err::<String, PutError>(PutError::DuplicateToken),
    {
        self.pending.evict_expired(now);
        match self.pending.put(token, webhook, now) {
            Ok(()) => Ok(redirect_url),
            Err(e) => Err(e),
        }
    }

    /// Handles the provider's callback for `token`: the waiting attempt is
    /// consumed. If there was none, or its time ran out, the attempt is gone
    /// and no code exchange is owed; otherwise the caller exchanges the code.
    pub fn complete_authorization(&mut self, token: &str, now: u64) -> (r: CallbackStep)
        requires
            old(self).wf(),
        ensures
            final(self).wf(),
            final(self).service() == old(self).service(),
            (final(self).pending(), step_view(r)) == take_spec(old(self).pending(), token@, now),
            r matches CallbackStep::Done(o) ==> o is Gone,
            !old(self).pending().contains_key(token@) ==> r matches CallbackStep::Done(
                CallbackOutcome::Gone(TakeError::NotFound),
            ),
    {
        match self.pending.take_and_remove(token, now) {
            Ok(w) => CallbackStep::Exchange(w),
            Err(e) => CallbackStep::Done(CallbackOutcome::Gone(e)),
        }
    }

    /// Ends an attempt from the provider's answer to the code exchange.
    pub fn finish_authorization(webhook: Webhook, exchanged: bool) -> (r: CallbackOutcome)
        ensures
            exchanged ==> (r matches CallbackOutcome::Completed(w) && w@ == webhook@),
            !exchanged ==> r is Rejected,
    {
        if exchanged {
            CallbackOutcome::Completed(webhook)
        } else {
            CallbackOutcome::Rejected
        }
    }
}

/// A token stored once is taken back once: the first take before the
/// deadline returns the stored webhook and leaves the store as it was before
/// the put, and any later take of the same token finds nothing.
pub proof fn lemma_token_taken_once(
    m: PendingMap,
    token: Seq<char>,
    webhook: Seq<char>,
    put_at: u64,
    take_at: u64,
    again_at: u64,
)
    requires
        !m.contains_key(token),
        take_at < deadline_after(put_at),
    ensures
        put_spec(m, token, webhook, put_at).1,
        take_spec(put_spec(m, token, webhook, put_at).0, token, take_at) == (m, Ok::<Seq<char>, TakeError>(webhook)),
        take_spec(m, token, again_at).1 == Err::<Seq<char>, TakeError>(TakeError::NotFound),
{
    let m1 = put_spec(m, token, webhook, put_at).0;
    assert(m1.remove(token) =~= m);
}

/// Whatever a take of a token returns, a second take of it finds nothing:
/// of callers that race on one token, at most one gets the webhook.
pub proof fn lemma_second_take_not_found(m: PendingMap, token: Seq<char>, first_at: u64, second_at: u64)
    ensures
        take_spec(take_spec(m, token, first_at).0, token, second_at).1 == Err::<Seq<char>, TakeError>(
            TakeError::NotFound,
        ),
{
}

/// A login that stores a webhook in a flow with nothing waiting, followed by
/// the callback for its token before the deadline, leads to the exchange for
/// that webhook and leaves nothing waiting.
pub proof fn lemma_begin_then_complete(
    token: Seq<char>,
    webhook: Seq<char>,
    begin_at: u64,
    callback_at: u64,
)
    requires
        callback_at < deadline_after(begin_at),
    ensures
        ({
            let begun = put_spec(unexpired(PendingMap::empty(), begin_at), token, webhook, begin_at);
            &&& begun.1
            &&& take_spec(begun.0, token, callback_at) == (PendingMap::empty(), Ok::<Seq<char>, TakeError>(webhook))
        }),
{
    assert(unexpired(PendingMap::empty(), begin_at) =~= PendingMap::empty());
    lemma_token_taken_once(PendingMap::empty(), token, webhook, begin_at, callback_at, callback_at);
}

} // verus!
