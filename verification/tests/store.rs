use scoopit_api::access_token_store::{
    retry_deadline, AccessTokenStore, RenewalDecision, RENEW_GRACE_PERIOD_SECS,
    RENEW_RETRY_BACKOFF_SECS,
};
use scoopit_api::error::Error;
use scoopit_api::{AccessToken, AccessTokenRenew};

fn renewing_token(tok: &str, expires_at: u64, grant: &str) -> AccessToken {
    AccessToken::with_renew(
        tok.to_string(),
        Some(AccessTokenRenew::new(expires_at, grant.to_string())),
    )
}

fn expect_fast_path(store: &AccessTokenStore, now: u64) -> String {
    match store.decide(now) {
        RenewalDecision::UseCurrent { access_token } => access_token,
        RenewalDecision::Renew { .. } => panic!("expected the fast path at {now}"),
    }
}

fn expect_renewal(store: &AccessTokenStore, now: u64) -> String {
    match store.decide(now) {
        RenewalDecision::Renew { refresh_token } => refresh_token,
        RenewalDecision::UseCurrent { .. } => panic!("expected a renewal at {now}"),
    }
}

#[test]
fn non_renewing_credential_never_arms_and_takes_fast_path() {
    let store = AccessTokenStore::new(AccessToken::new("tok".to_string()));
    assert!(store.scheduler_deadline().is_none());
    for now in [0u64, 1, 1_700_000_000, u64::MAX] {
        assert_eq!(expect_fast_path(&store, now), "tok");
    }
}

#[test]
fn unexpired_credential_served_from_cache() {
    let exp: u64 = 1_000_000;
    let store = AccessTokenStore::new(renewing_token("tok", exp, "grant"));
    for now in [0u64, 1, exp - 1] {
        assert_eq!(expect_fast_path(&store, now), "tok");
    }
    // Two consecutive reads return the same token string.
    assert_eq!(expect_fast_path(&store, 5), expect_fast_path(&store, 5));
}

#[test]
fn expired_credential_demands_one_exchange_and_returns_fresh_token() {
    let exp: u64 = 1_000_000;
    let mut store = AccessTokenStore::new(renewing_token("old", exp, "grant"));
    for now in [exp, exp + 1, u64::MAX] {
        assert_eq!(expect_renewal(&store, now), "grant");
    }
    let fresh = renewing_token("new", exp + 3600, "grant-2");
    let got = store.complete_renewal(Ok(fresh)).unwrap();
    assert_eq!(got, "new");
    assert_eq!(store.current_token().access_token(), "new");
}

#[test]
fn renewal_routine_is_idempotent_to_policy() {
    let exp: u64 = 1_000_000;
    let now = exp + 5;
    let mut store = AccessTokenStore::new(renewing_token("old", exp, "grant"));
    // First invocation: expired, so one exchange happens.
    assert_eq!(expect_renewal(&store, now), "grant");
    let fresh = renewing_token("new", now + 3600, "grant-2");
    store.complete_renewal(Ok(fresh)).unwrap();
    // Second invocation right after: the fresh credential is not expired,
    // so no further exchange is asked for.
    assert_eq!(expect_fast_path(&store, now), "new");
}

#[test]
fn failing_renewer_retries_and_never_replaces_credential() {
    let exp: u64 = 1_000;
    let mut store = AccessTokenStore::new(renewing_token("old", exp, "grant"));
    let deadline = store.scheduler_deadline().unwrap();
    assert_eq!(deadline, exp + RENEW_GRACE_PERIOD_SECS);

    // Drive the loop from its first wake with a renewer that always fails.
    let mut now = deadline + 1;
    let mut attempts = 0;
    for _ in 0..3 {
        let grant = expect_renewal(&store, now);
        assert_eq!(grant, "grant");
        let outcome: Result<AccessToken, Error> =
            Err(Error::renewal_failed("connection refused".to_string()));
        let e = store.complete_renewal(outcome).unwrap_err();
        assert!(e.is_renewal_failed());
        attempts += 1;
        // The credential is never replaced by a failure.
        assert_eq!(store.current_token().access_token(), "old");
        // The loop re-arms on the short backoff, not the computed deadline.
        now = retry_deadline(now);
    }
    assert!(attempts >= 2);
    assert_eq!(store.current_token().access_token(), "old");
}

#[test]
fn racing_renewals_both_succeed_and_last_writer_wins() {
    let exp: u64 = 1_000;
    let now = exp + 1;
    let mut store = AccessTokenStore::new(renewing_token("old", exp, "grant"));
    // Both callers observe the expired credential before either renews.
    let grant_a = expect_renewal(&store, now);
    let grant_b = expect_renewal(&store, now);
    assert_eq!(grant_a, "grant");
    assert_eq!(grant_b, "grant");
    // Each performs its own exchange; the installs land in completion order.
    let got_a = store
        .complete_renewal(Ok(renewing_token("new-a", now + 3600, "ga")))
        .unwrap();
    let got_b = store
        .complete_renewal(Ok(renewing_token("new-b", now + 3600, "gb")))
        .unwrap();
    assert_eq!(got_a, "new-a");
    assert_eq!(got_b, "new-b");
    // The last completed renewal is the one left in the store.
    assert_eq!(store.current_token().access_token(), "new-b");
}

#[test]
fn scheduler_deadline_is_expiry_plus_grace() {
    let store = AccessTokenStore::new(renewing_token("tok", 10_000, "g"));
    assert_eq!(store.scheduler_deadline(), Some(10_000 + 300));
    assert_eq!(RENEW_GRACE_PERIOD_SECS, 300);
    assert_eq!(RENEW_RETRY_BACKOFF_SECS, 1);
}

#[test]
fn scheduler_deadline_saturates_near_the_end_of_time() {
    let store = AccessTokenStore::new(renewing_token("tok", u64::MAX - 10, "g"));
    assert_eq!(store.scheduler_deadline(), Some(u64::MAX));
    assert_eq!(retry_deadline(u64::MAX), u64::MAX);
    assert_eq!(retry_deadline(7), 8);
}

#[test]
fn install_replaces_the_credential() {
    let mut store = AccessTokenStore::new(AccessToken::new("a".to_string()));
    store.install(AccessToken::new("b".to_string()));
    assert_eq!(store.current_token().access_token(), "b");
    assert!(store.scheduler_deadline().is_none());
}

#[test]
fn error_kinds_are_distinguishable() {
    assert!(Error::not_found().is_not_found());
    assert!(!Error::not_found().is_forbidden());
    assert!(Error::forbidden().is_forbidden());
    assert!(!Error::forbidden().is_not_found());
    assert!(Error::invalid_credential().is_invalid_credential());
    let e = Error::renewal_failed("boom".to_string());
    assert!(e.is_renewal_failed());
    assert_eq!(e.message(), "boom");
    assert_eq!(Error::other("m".to_string()).message(), "m");
}
