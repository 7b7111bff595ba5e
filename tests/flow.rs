use monzo2discord::flow::{AuthorizationFlow, CallbackOutcome, CallbackStep};
use monzo2discord::pending::{PendingAuthorizationStore, PutError, TakeError, PENDING_TTL_SECS};
use monzo2discord::webhook::{Discord, Webhook};
use oauth2::basic::BasicClient;
use oauth2::{AuthUrl, ClientId, ClientSecret, CsrfToken, RedirectUrl, TokenUrl};

const ADDRESS: &str = "https://chat.example/api/webhooks/123/abc";

fn service() -> Discord {
    Discord::new("https://chat.example").unwrap()
}

fn webhook(address: &str) -> Webhook {
    let discord = service();
    let check = discord.check_webhook(address).unwrap();
    discord.create_webhook(check, 200).unwrap()
}

fn oauth_client() -> BasicClient {
    BasicClient::new(
        ClientId::new("client".to_string()),
        Some(ClientSecret::new("secret".to_string())),
        AuthUrl::new("https://auth.example/authorize".to_string()).unwrap(),
        Some(TokenUrl::new("https://auth.example/token".to_string()).unwrap()),
    )
    .set_redirect_uri(RedirectUrl::new("https://relay.example/oauth/callback".to_string()).unwrap())
}

#[test]
fn state_code_survives_journey() {
    let token = CsrfToken::new_random();
    let mut store = PendingAuthorizationStore::new();
    store.put(token.secret().clone(), webhook(ADDRESS), 0).unwrap();
    let back = store.take_and_remove(token.secret(), 1).unwrap();
    assert_eq!(back.url(), ADDRESS);
}

#[test]
fn take_after_put_returns_webhook_once() {
    let mut store = PendingAuthorizationStore::new();
    store.put("t".to_string(), webhook(ADDRESS), 100).unwrap();
    assert_eq!(store.len(), 1);
    assert!(store.contains("t"));
    assert_eq!(store.take_and_remove("t", 100).unwrap().url(), ADDRESS);
    assert_eq!(store.take_and_remove("t", 100).unwrap_err(), TakeError::NotFound);
    assert_eq!(store.len(), 0);
    assert!(!store.contains("t"));
}

#[test]
fn racing_takes_succeed_once() {
    let mut store = PendingAuthorizationStore::new();
    store.put("t".to_string(), webhook(ADDRESS), 0).unwrap();
    let wins = (0..8).filter(|_| store.take_and_remove("t", 5).is_ok()).count();
    assert_eq!(wins, 1);
}

#[test]
fn duplicate_token_is_refused() {
    let mut store = PendingAuthorizationStore::new();
    store.put("t".to_string(), webhook(ADDRESS), 0).unwrap();
    let err = store
        .put("t".to_string(), webhook("https://chat.example/api/webhooks/9/z"), 1)
        .unwrap_err();
    assert_eq!(err, PutError::DuplicateToken);
    assert_eq!(store.len(), 1);
    assert_eq!(store.take_and_remove("t", 2).unwrap().url(), ADDRESS);
}

#[test]
fn expired_entries_are_refused() {
    let mut store = PendingAuthorizationStore::new();
    store.put("late".to_string(), webhook(ADDRESS), 1000).unwrap();
    store.put("early".to_string(), webhook(ADDRESS), 1000).unwrap();
    assert_eq!(store.take_and_remove("early", 1000 + PENDING_TTL_SECS - 1).unwrap().url(), ADDRESS);
    assert_eq!(
        store.take_and_remove("late", 1000 + PENDING_TTL_SECS).unwrap_err(),
        TakeError::Expired
    );
    assert_eq!(store.take_and_remove("late", 0).unwrap_err(), TakeError::NotFound);
}

#[test]
fn deadline_saturates() {
    let mut store = PendingAuthorizationStore::new();
    store.put("t".to_string(), webhook(ADDRESS), u64::MAX - 1).unwrap();
    assert!(store.take_and_remove("t", u64::MAX - 1).is_ok());
}

#[test]
fn eviction_keeps_fresh_entries() {
    let mut store = PendingAuthorizationStore::new();
    store.put("a".to_string(), webhook(ADDRESS), 0).unwrap();
    store.put("b".to_string(), webhook(ADDRESS), 500).unwrap();
    store.put("c".to_string(), webhook(ADDRESS), 0).unwrap();
    store.evict_expired(600);
    assert_eq!(store.len(), 1);
    assert!(store.contains("b"));
    assert!(!store.contains("a"));
    assert!(!store.contains("c"));
    store.evict_expired(2000);
    assert_eq!(store.len(), 0);
}

#[test]
fn scenario_begin_stores_state() {
    let discord = service();
    let mut flow = AuthorizationFlow::new(discord);
    let check = flow.discord().check_webhook(ADDRESS).unwrap();
    assert_eq!(check.address(), ADDRESS);
    let hook = flow.discord().create_webhook(check, 200).unwrap();

    let (url, token) = oauth_client().authorize_url(CsrfToken::new_random).url();
    let redirect = flow
        .begin_authorization(hook, token.secret().clone(), url.to_string(), 10)
        .unwrap();
    let state = url::Url::parse(&redirect)
        .unwrap()
        .query_pairs()
        .find(|(k, _)| k == "state")
        .map(|(_, v)| v.into_owned())
        .unwrap();
    assert_eq!(&state, token.secret());
    assert_eq!(flow.pending_len(), 1);
    assert!(flow.is_pending(&state));
}

#[test]
fn scenario_complete_succeeds() {
    let mut flow = AuthorizationFlow::new(service());
    let token = CsrfToken::new_random();
    flow.begin_authorization(webhook(ADDRESS), token.secret().clone(), "https://auth.example/".to_string(), 10)
        .unwrap();
    let hook = match flow.complete_authorization(token.secret(), 20) {
        CallbackStep::Exchange(w) => w,
        other => panic!("{:?}", other),
    };
    assert_eq!(hook.url(), ADDRESS);
    let outcome = AuthorizationFlow::finish_authorization(hook, true);
    assert_eq!(outcome.status_code(), 200);
    assert!(matches!(outcome, CallbackOutcome::Completed(ref w) if w.url() == ADDRESS));
    assert_eq!(flow.pending_len(), 0);
}

#[test]
fn scenario_unknown_token_is_gone() {
    let mut flow = AuthorizationFlow::new(service());
    flow.begin_authorization(webhook(ADDRESS), "known".to_string(), "r".to_string(), 0).unwrap();
    match flow.complete_authorization("unknown", 1) {
        CallbackStep::Done(outcome) => {
            assert!(matches!(outcome, CallbackOutcome::Gone(TakeError::NotFound)));
            assert_eq!(outcome.status_code(), 410);
        }
        other => panic!("{:?}", other),
    }
    assert_eq!(flow.pending_len(), 1);
}

#[test]
fn late_callback_is_gone() {
    let mut flow = AuthorizationFlow::new(service());
    flow.begin_authorization(webhook(ADDRESS), "t".to_string(), "r".to_string(), 0).unwrap();
    match flow.complete_authorization("t", PENDING_TTL_SECS) {
        CallbackStep::Done(CallbackOutcome::Gone(e)) => assert_eq!(e, TakeError::Expired),
        other => panic!("{:?}", other),
    }
    assert_eq!(flow.pending_len(), 0);
}

#[test]
fn rejected_exchange() {
    let outcome = AuthorizationFlow::finish_authorization(webhook(ADDRESS), false);
    assert!(matches!(outcome, CallbackOutcome::Rejected));
    assert_eq!(outcome.status_code(), 417);
}

#[test]
fn begin_evicts_and_refuses_duplicates() {
    let mut flow = AuthorizationFlow::new(service());
    flow.begin_authorization(webhook(ADDRESS), "old".to_string(), "r".to_string(), 0).unwrap();
    flow.begin_authorization(webhook(ADDRESS), "t".to_string(), "r".to_string(), 10).unwrap();
    let err = flow
        .begin_authorization(webhook(ADDRESS), "t".to_string(), "r".to_string(), 20)
        .unwrap_err();
    assert_eq!(err, PutError::DuplicateToken);
    assert_eq!(flow.pending_len(), 2);
    let redirect = flow
        .begin_authorization(webhook(ADDRESS), "new".to_string(), "https://r/".to_string(), PENDING_TTL_SECS)
        .unwrap();
    assert_eq!(redirect, "https://r/");
    assert!(!flow.is_pending("old"));
    assert!(flow.is_pending("t"));
    assert_eq!(flow.pending_len(), 2);
}
