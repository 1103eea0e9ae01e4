//! Client-side credential cache for a bearer-token HTTP API.
//!
//! The heart of the crate is the access-token subsystem: an immutable
//! [`AccessToken`] value carrying optional renewal metadata, and an
//! [`AccessTokenStore`] that decides, from the current token and the clock,
//! whether a caller may use the cached token or a renewal exchange is due,
//! and that computes the deadlines of the proactive background renewal
//! loop.  Around it stand the request types of the API, their verified
//! query-string and form-body serialization, and the conversions from wire
//! responses to the crate's data types.  All of those decisions and
//! computations are verified; the HTTP transport that carries them lives
//! outside this crate and feeds its outcomes back in as plain values.

use vstd::prelude::*;

pub mod access_token_store;
pub mod error;
pub mod oauth;
pub mod requests;
pub mod strutil;
pub mod token;
pub mod types;

verus! {

pub use access_token_store::AccessTokenStore;
pub use token::AccessToken;
pub use token::AccessTokenRenew;
pub use token::Claims;

pub use requests::CreateSuggestionEngineSourceRequest;
pub use requests::CreateSuggestionEngineSourceResponse;
pub use requests::DeleteSuggestionEngineSourceRequest;
pub use requests::EmptyUpdateResponse;
pub use requests::GetCompilationRequest;
pub use requests::GetCompilationResponse;
pub use requests::GetCompilationSort;
pub use requests::GetProfileRequest;
pub use requests::GetRecipientsListRequest;
pub use requests::GetRecipientsListResponse;
pub use requests::GetSuggestionEngineSourcesRequest;
pub use requests::GetSuggestionEngineSourcesResponse;
pub use requests::GetSuggestionEnginesRequest;
pub use requests::GetSuggestionEnginesResponse;
pub use requests::GetTopicGroupRequest;
pub use requests::GetTopicGroupResponse;
pub use requests::GetTopicOrder;
pub use requests::GetTopicRequest;
pub use requests::HttpMethod;
pub use requests::LoginAccessToken;
pub use requests::LoginRequest;
pub use requests::LoginResponse;
pub use requests::SearchRequest;
pub use requests::SearchRequestType;
pub use requests::SearchResponse;
pub use requests::TestRequest;
pub use requests::TestResponse;
pub use requests::TopicResponse;
pub use requests::UpdateSuggestionEngineSourceRequest;
pub use requests::UserResponse;

} // verus!
