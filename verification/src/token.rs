//! The access token data model: an immutable bearer token plus optional
//! renewal metadata.
//!
//! A token is constructed either directly (a never-expiring, externally
//! issued token) or from a token-exchange response, in which case its
//! authoritative expiry is decoded from the token's own claims.

use vstd::prelude::*;
use crate::error::Error;
use crate::error::ErrorKind;
use crate::oauth::AccessTokenResponse;

verus! {

/// The `exp` claim carried by a bearer token, as decoded by
/// [`decode_exp_claim`]: `None` when the token is not a well-formed JWT or
/// its claims hold no unsigned integer `exp`.  A pure function of the token
/// text.
pub uninterp spec fn exp_claim_of(token: Seq<char>) -> Option<u64>;

/// Relies on `jsonwebtokens::raw::split_token` and
/// `jsonwebtokens::raw::decode_json_token_slice` to split a
/// `header.claims.signature` token and base64/JSON-decode its claims, and on
/// `serde_json::Value::get` / `Value::as_u64` to read the `exp` claim.  All
/// four compute from the token text alone, so the result is a pure function
/// of it.
#[verifier::external_body]
fn decode_exp_claim(token: &str) -> (r: Option<u64>)
    ensures
        r == exp_claim_of(token@),
{
    let slices = match jsonwebtokens::raw::split_token(token) {
        Ok(s) => s,
        Err(_) => return None,
    };
    let claims = match jsonwebtokens::raw::decode_json_token_slice(slices.claims) {
        Ok(v) => v,
        Err(_) => return None,
    };
    claims.get("exp").and_then(serde_json::Value::as_u64)
}

/// The one claim this crate reads from a token: its expiry.
#[derive(Debug, Clone)]
pub struct Claims {
    pub exp: Option<u64>,
}

/// Renewal data of an access token: when it expires and the refresh grant
/// that obtains its successor.
#[derive(Debug, Clone)]
pub struct AccessTokenRenew {
    expires_at: u64,
    refresh_token: String,
}

/// Mathematical model of [`AccessTokenRenew`].
pub struct RenewView {
    pub expires_at: u64,
    pub refresh_token: Seq<char>,
}

impl View for AccessTokenRenew {
    type V = RenewView;

    closed spec fn view(&self) -> RenewView {
        RenewView { expires_at: self.expires_at, refresh_token: self.refresh_token@ }
    }
}

impl AccessTokenRenew {
    pub fn new(expires_at: u64, refresh_token: String) -> (r: Self)
        ensures
            r@.expires_at == expires_at,
            r@.refresh_token == refresh_token@,
    {
        Self { expires_at, refresh_token }
    }

    /// Unix timestamp (seconds) at which the token this belongs to expires.
    pub fn expires_at(&self) -> (r: u64)
        ensures
            r == self@.expires_at,
    {
        self.expires_at
    }

    /// The refresh grant presented to the token endpoint to renew.
    pub fn refresh_token(&self) -> (r: &str)
        ensures
            r@ == self@.refresh_token,
    {
        self.refresh_token.as_str()
    }
}

/// An access token: the opaque bearer value plus optional renewal metadata.
///
/// A token with no renewal metadata never expires as far as this crate is
/// concerned and is never scheduled for renewal.
#[derive(Debug, Clone)]
pub struct AccessToken {
    access_token: String,
    renew: Option<AccessTokenRenew>,
}

/// Mathematical model of [`AccessToken`].
pub struct TokenView {
    pub access_token: Seq<char>,
    pub renew: Option<RenewView>,
}

impl View for AccessToken {
    type V = TokenView;

    closed spec fn view(&self) -> TokenView {
        TokenView {
            access_token: self.access_token@,
            renew: match self.renew {
                Some(r) => Some(r@),
                None => None,
            },
        }
    }
}

impl TokenView {
    /// A token is still valid at `now` when it carries no renewal metadata
    /// (it never expires) or its expiry lies strictly in the future.
    pub open spec fn valid_at(self, now: u64) -> bool {
        match self.renew {
            None => true,
            Some(r) => now < r.expires_at,
        }
    }
}

impl AccessToken {
    /// Creates a never-expiring access token.
    ///
    /// This token will never be renewed. If it comes to expire, all requests
    /// using it will fail.
    pub fn new(access_token: String) -> (r: Self)
        ensures
            r@.access_token == access_token@,
            r@.renew is None,
    {
        Self::with_renew(access_token, None)
    }

    /// Creates an access token.
    ///
    /// If `renew` is provided the token is automatically renewed when needed.
    pub fn with_renew(access_token: String, renew: Option<AccessTokenRenew>) -> (r: Self)
        ensures
            r@.access_token == access_token@,
            match renew {
                Some(rn) => r@.renew == Some(rn@),
                None => r@.renew is None,
            },
    {
        Self { access_token, renew }
    }

    /// The opaque bearer value presented to the API.
    pub fn access_token(&self) -> (r: &str)
        ensures
            r@ == self@.access_token,
    {
        self.access_token.as_str()
    }

    /// The renewal metadata, if the token is renewable.
    pub fn renew(&self) -> (r: &Option<AccessTokenRenew>)
        ensures
            match r {
                Some(rn) => self@.renew == Some(rn@),
                None => self@.renew is None,
            },
    {
        &self.renew
    }

    /// Builds an access token from a token-exchange response.
    ///
    /// The authoritative expiry is decoded from the access token's own `exp`
    /// claim; the response's advisory `expires_in` is ignored.  When the
    /// response carries a refresh grant but the token yields no decodable
    /// expiry, construction fails with `InvalidCredential`: a refreshable
    /// token must be able to report when it needs refreshing.  Without a
    /// refresh grant the credential is non-renewing, whatever the token's
    /// claims say.
    pub fn try_from(r: AccessTokenResponse) -> (res: Result<AccessToken, Error>)
        ensures
            ({
                let exp = exp_claim_of(r.access_token@);
                match res {
                    Ok(t) => {
                        &&& t@.access_token == r.access_token@
                        &&& match r.refresh_token {
                            Some(g) => exp is Some && t@.renew == Some(
                                RenewView { expires_at: exp->0, refresh_token: g@ },
                            ),
                            None => t@.renew is None,
                        }
                    },
                    Err(e) => {
                        &&& r.refresh_token is Some
                        &&& exp is None
                        &&& e@.kind == ErrorKind::InvalidCredential
                    },
                }
            }),
            res is Ok <==> !(r.refresh_token is Some && exp_claim_of(r.access_token@) is None),
    {
        let AccessTokenResponse { access_token, expires_in: _, refresh_token } = r;
        let claims = Claims { exp: decode_exp_claim(access_token.as_str()) };
        match refresh_token {
            Some(g) => match claims.exp {
                Some(e) => Ok(Self::with_renew(access_token, Some(AccessTokenRenew::new(e, g)))),
                None => Err(Error::invalid_credential()),
            },
            None => Ok(Self::with_renew(access_token, None)),
        }
    }

    /// Whether the token is still valid at `now` (unix seconds): either it
    /// never expires or its expiry is strictly in the future.
    pub fn is_valid_at(&self, now: u64) -> (r: bool)
        ensures
            r == self@.valid_at(now),
    {
        match &self.renew {
            None => true,
            Some(renew) => now < renew.expires_at,
        }
    }
}

} // verus!
