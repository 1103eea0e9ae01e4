//! The access-token store: one live credential shared by all callers, a
//! synchronous read/renew contract, and the deadlines that drive the
//! proactive background renewal loop.
//!
//! The store itself is a sequential value.  The host embeds it behind an
//! exclusive-access cell (a reader-writer lock), performs the network
//! exchange that this crate deliberately treats as opaque, and feeds the
//! outcome back through [`AccessTokenStore::complete_renewal`]; every
//! decision — fast path or renewal, which grant to present, when the
//! background loop wakes next — is made and verified here.
//!
//! At-most-one renewal in flight is deliberately not enforced: two callers
//! racing on an expired credential each perform their own exchange, and the
//! last completed replacement wins — a known efficiency gap, not a
//! correctness one, since every successful outcome installs a fresh
//! credential whole.

use vstd::prelude::*;
use crate::error::Error;
use crate::token::AccessToken;
use crate::token::TokenView;

verus! {

/// Grace period in seconds added past nominal expiry before the proactive
/// renewal deadline: renewing slightly late keeps a still-valid refresh
/// grant from being invalidated early, while the synchronous path still
/// catches truly expired tokens on demand.
pub const RENEW_GRACE_PERIOD_SECS: u64 = 300;

/// Backoff in seconds before the background loop re-arms after a failed
/// renewal attempt.
pub const RENEW_RETRY_BACKOFF_SECS: u64 = 1;

/// What a caller of the store must do, decided from the current credential
/// and the clock.
#[derive(Debug)]
pub enum RenewalDecision {
    /// Fast path: the cached token is valid; present it as is.
    UseCurrent { access_token: String },
    /// Slow path: the credential has expired; exchange this refresh grant
    /// for a fresh credential and feed the outcome back.
    Renew { refresh_token: String },
}

/// Mathematical model of [`RenewalDecision`].
pub enum DecisionView {
    UseCurrent { access_token: Seq<char> },
    Renew { refresh_token: Seq<char> },
}

impl View for RenewalDecision {
    type V = DecisionView;

    closed spec fn view(&self) -> DecisionView {
        match self {
            RenewalDecision::UseCurrent { access_token } => DecisionView::UseCurrent {
                access_token: access_token@,
            },
            RenewalDecision::Renew { refresh_token } => DecisionView::Renew {
                refresh_token: refresh_token@,
            },
        }
    }
}

/// The renewal routine's decision on a credential at instant `now`: keep a
/// valid credential untouched, renew an expired one with its stored grant.
pub open spec fn spec_decision(t: TokenView, now: u64) -> DecisionView {
    if t.valid_at(now) {
        DecisionView::UseCurrent { access_token: t.access_token }
    } else {
        DecisionView::Renew { refresh_token: t.renew->0.refresh_token }
    }
}

/// The instant at which the background loop should next wake for a
/// credential: its expiry plus the grace period (saturating), or never for
/// a non-renewing credential.
pub open spec fn spec_scheduler_deadline(t: TokenView) -> Option<u64> {
    match t.renew {
        None => None,
        Some(r) => Some(
            if r.expires_at + RENEW_GRACE_PERIOD_SECS <= u64::MAX {
                (r.expires_at + RENEW_GRACE_PERIOD_SECS) as u64
            } else {
                u64::MAX
            },
        ),
    }
}

/// Owns the one live credential all callers share.
pub struct AccessTokenStore {
    current: AccessToken,
}

impl View for AccessTokenStore {
    type V = TokenView;

    closed spec fn view(&self) -> TokenView {
        self.current@
    }
}

impl AccessTokenStore {
    /// Creates a store holding `token` as its live credential.
    pub fn new(token: AccessToken) -> (r: Self)
        ensures
            r@ == token@,
    {
        Self { current: token }
    }

    /// The live credential.
    pub fn current_token(&self) -> (r: &AccessToken)
        ensures
            r@ == self@,
    {
        &self.current
    }

    /// The synchronous read contract: inspect the current credential at
    /// `now` without side effects.  A valid credential yields its token (the
    /// fast path); an expired one yields the refresh grant the caller must
    /// exchange (the slow path).
    pub fn decide(&self, now: u64) -> (r: RenewalDecision)
        ensures
            r@ == spec_decision(self@, now),
    {
        match self.current.renew() {
            None => RenewalDecision::UseCurrent {
                access_token: self.current.access_token().to_owned(),
            },
            Some(renew) => {
                if now < renew.expires_at() {
                    RenewalDecision::UseCurrent {
                        access_token: self.current.access_token().to_owned(),
                    }
                } else {
                    RenewalDecision::Renew { refresh_token: renew.refresh_token().to_owned() }
                }
            },
        }
    }

    /// Atomically replaces the live credential; the superseded value is
    /// dropped, no history is retained.
    pub fn install(&mut self, new_token: AccessToken)
        ensures
            final(self)@ == new_token@,
    {
        self.current = new_token;
    }

    /// Applies the outcome of a renewal exchange.  On success the fresh
    /// credential replaces the live one and its token is returned; on
    /// failure the old credential is left in place — an error never corrupts
    /// the stored credential — and the error is surfaced.
    pub fn complete_renewal(&mut self, outcome: Result<AccessToken, Error>) -> (r: Result<
        String,
        Error,
    >)
        ensures
            match outcome {
                Ok(t) => {
                    &&& final(self)@ == t@
                    &&& r matches Ok(s) && s@ == t@.access_token
                },
                Err(e) => {
                    &&& final(self)@ == old(self)@
                    &&& r matches Err(e2) && e2@ == e@
                },
            },
    {
        match outcome {
            Ok(t) => {
                let fresh = t.access_token().to_owned();
                self.current = t;
                Ok(fresh)
            },
            Err(e) => Err(e),
        }
    }

    /// When the background loop should next wake: the credential's expiry
    /// plus [`RENEW_GRACE_PERIOD_SECS`], or `None` — the loop does not arm —
    /// for a non-renewing credential.
    pub fn scheduler_deadline(&self) -> (r: Option<u64>)
        ensures
            r == spec_scheduler_deadline(self@),
    {
        match self.current.renew() {
            None => None,
            Some(renew) => {
                let e = renew.expires_at();
                if e <= u64::MAX - RENEW_GRACE_PERIOD_SECS {
                    Some(e + RENEW_GRACE_PERIOD_SECS)
                } else {
                    Some(u64::MAX)
                }
            },
        }
    }
}

/// When the background loop should re-arm after a failed attempt at `now`:
/// a short fixed backoff, never the computed renewal deadline.
pub fn retry_deadline(now: u64) -> (r: u64)
    ensures
        now + RENEW_RETRY_BACKOFF_SECS <= u64::MAX ==> r == now + RENEW_RETRY_BACKOFF_SECS,
        now + RENEW_RETRY_BACKOFF_SECS > u64::MAX ==> r == u64::MAX,
{
    now.saturating_add(RENEW_RETRY_BACKOFF_SECS)
}

/// The synchronous contract never serves a token known at the instant of
/// the call to be expired: the cached token is handed out exactly when the
/// credential is still valid, and otherwise an exchange is demanded.
pub proof fn lemma_fast_path_iff_valid(t: TokenView, now: u64)
    ensures
        (spec_decision(t, now) is UseCurrent) <==> t.valid_at(now),
{
}

/// A non-renewing credential produces no background activity and always
/// takes the fast path: the scheduler never arms for it, and at every
/// instant the synchronous contract serves the cached token unchanged.
pub proof fn lemma_non_renewing_is_quiet(t: TokenView, now: u64)
    requires
        t.renew is None,
    ensures
        spec_scheduler_deadline(t) is None,
        spec_decision(t, now) == (DecisionView::UseCurrent { access_token: t.access_token }),
{
}

/// A credential whose expiry lies in the future is served from the cache:
/// at every instant before the expiry the synchronous contract returns the
/// same token string without demanding an exchange.
pub proof fn lemma_unexpired_fast_path(t: TokenView, now: u64)
    requires
        t.renew matches Some(r) && now < r.expires_at,
    ensures
        spec_decision(t, now) == (DecisionView::UseCurrent { access_token: t.access_token }),
{
}

/// A credential at or past its expiry demands exactly one exchange, with
/// the stored refresh grant; by [`AccessTokenStore::complete_renewal`], a
/// successful outcome then replaces the credential and returns the newly
/// issued token.
pub proof fn lemma_expired_must_renew(t: TokenView, now: u64)
    requires
        t.renew matches Some(r) && now >= r.expires_at,
    ensures
        spec_decision(t, now) == (DecisionView::Renew {
            refresh_token: t.renew->0.refresh_token,
        }),
{
}

/// Renewal is idempotent to policy: when a first invocation has just
/// installed a credential not yet expired at `now`, a second invocation at
/// `now` keeps it and performs no further exchange.
pub proof fn lemma_renewal_idempotent(t: TokenView, now: u64)
    requires
        t.valid_at(now),
    ensures
        spec_decision(t, now) == (DecisionView::UseCurrent { access_token: t.access_token }),
{
}

} // verus!
