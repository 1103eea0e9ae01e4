//! The token-exchange wire shapes: the response the token endpoint returns
//! and the form-encoded request presented to it.

use vstd::prelude::*;
use crate::strutil;

verus! {

/// What the token endpoint returns on a successful exchange.
///
/// `expires_in` is advisory only: the authoritative expiry is decoded from
/// the access token's own claims.
#[derive(Debug, Clone)]
pub struct AccessTokenResponse {
    pub access_token: String,
    pub expires_in: u64,
    pub refresh_token: Option<String>,
}

/// The form fields POSTed to the token endpoint.
#[derive(Debug, Clone)]
pub struct AccessTokenRequest<'a> {
    pub client_id: &'a str,
    pub client_secret: &'a str,
    pub grant_type: &'a str,
    pub refresh_token: Option<&'a str>,
}

impl<'a> AccessTokenRequest<'a> {
    /// The request for the initial client-credentials exchange.
    pub fn client_credentials(client_id: &'a str, client_secret: &'a str) -> (r: Self)
        ensures
            r.client_id@ == client_id@,
            r.client_secret@ == client_secret@,
            r.grant_type@ == "client_credentials"@,
            r.refresh_token is None,
    {
        AccessTokenRequest {
            client_id,
            client_secret,
            grant_type: "client_credentials",
            refresh_token: None,
        }
    }

    /// The request that exchanges a refresh grant for a fresh credential.
    pub fn refresh(client_id: &'a str, client_secret: &'a str, refresh_token: &'a str) -> (r: Self)
        ensures
            r.client_id@ == client_id@,
            r.client_secret@ == client_secret@,
            r.grant_type@ == "refresh_token"@,
            r.refresh_token matches Some(t) && t@ == refresh_token@,
    {
        AccessTokenRequest {
            client_id,
            client_secret,
            grant_type: "refresh_token",
            refresh_token: Some(refresh_token),
        }
    }

    /// The exact `application/x-www-form-urlencoded` body of this request:
    /// the fields in declaration order, values form-encoded, an absent
    /// `refresh_token` omitted.
    pub open spec fn spec_form_body(self) -> Seq<char> {
        let base = strutil::qs_push(
            strutil::qs_push(
                strutil::qs_push(Seq::empty(), "client_id"@, strutil::form_encoded(self.client_id@)),
                "client_secret"@,
                strutil::form_encoded(self.client_secret@),
            ),
            "grant_type"@,
            strutil::form_encoded(self.grant_type@),
        );
        match self.refresh_token {
            Some(t) => strutil::qs_push(base, "refresh_token"@, strutil::form_encoded(t@)),
            None => base,
        }
    }

    /// Serializes the request as a form-encoded body.
    pub fn form_body(&self) -> (r: String)
        ensures
            r@ == self.spec_form_body(),
    {
        let mut out = String::new();
        strutil::append_pair_encoded(&mut out, "client_id", self.client_id);
        strutil::append_pair_encoded(&mut out, "client_secret", self.client_secret);
        strutil::append_pair_encoded(&mut out, "grant_type", self.grant_type);
        if let Some(t) = self.refresh_token {
            strutil::append_pair_encoded(&mut out, "refresh_token", t);
        }
        out
    }
}

} // verus!
