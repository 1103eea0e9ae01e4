//! The request types of the API, their query-string/body serialization,
//! and the conversions from wire responses to the crate's data types.
//!
//! Serialization follows the site's form conventions: fields in declaration
//! order under their camel-case wire names, absent optional fields omitted,
//! values percent-encoded, and repeated keys for list-valued fields
//! (`tag=a&tag=b`).

use vstd::prelude::*;
use crate::error::Error;
use crate::error::ErrorKind;
use crate::strutil;
use crate::strutil::append_pair;
use crate::strutil::append_pair_encoded;
use crate::strutil::form_encoded;
use crate::strutil::qs_push;
use crate::strutil::spec_bool;
use crate::strutil::spec_dec_int;
use crate::strutil::spec_dec_nat;
use crate::types::Post;
use crate::types::RecipientsList;
use crate::types::SearchResults;
use crate::types::Source;
use crate::types::SourceTypeData;
use crate::types::SuggestionEngine;
use crate::types::Topic;
use crate::types::TopicGroup;
use crate::types::User;

verus! {

/// The HTTP method an update request is sent with.
#[derive(Debug, Clone, Copy, PartialEq, Eq, Structural)]
pub enum HttpMethod {
    Get,
    Post,
    Put,
    Delete,
}

/// The content type every update request body is sent as.
pub fn form_content_type() -> (r: &'static str)
    ensures
        r@ == "application/x-www-form-urlencoded; charset=utf-8"@,
{
    "application/x-www-form-urlencoded; charset=utf-8"
}

/// Get the profile of a user.
///
/// Optional fields left `None` take the server-side defaults; the
/// `Default` implementation here is deliberately narrower, to avoid
/// retrieving the world while only looking at the user profile.
#[derive(Debug, Clone)]
pub struct GetProfileRequest {
    /// The short name of the user to look up; defaults to the current user.
    pub short_name: Option<String>,
    /// The id of the user to look up; defaults to the current user.
    pub id: Option<String>,
    /// Whether to return stats for each returned topic.
    pub get_stats: bool,
    /// Whether to return the list of tags of each returned topic.
    pub get_tags: bool,
    /// Number of curated posts to retrieve for each topic.
    pub curated: Option<u32>,
    /// Number of curable posts to retrieve for each curated topic.
    pub curable: Option<u32>,
    /// Maximum number of comments to retrieve per curated post.
    pub ncomments: Option<u32>,
    /// Whether to return the list of followed topics.
    pub get_followed_topics: bool,
    /// Whether to return the list of curated topics.
    pub get_curated_topics: bool,
    /// Filter curated topics by creation date, lower bound (unix seconds).
    pub filter_curated_topics_by_creation_date_from: Option<u64>,
    /// Filter curated topics by creation date, upper bound (unix seconds).
    pub filter_curated_topics_by_creation_date_to: Option<u64>,
    /// Whether to return the creator of each returned topic.
    pub get_creator: bool,
}

impl Default for GetProfileRequest {
    /// Sane defaults: profile only, no posts, stats, tags or comments.
    fn default() -> (r: Self)
        ensures
            r.short_name is None,
            r.id is None,
            r.get_stats == false,
            r.get_tags == false,
            r.curated == Some(0u32),
            r.curable == Some(0u32),
            r.ncomments == Some(0u32),
            r.get_followed_topics == false,
            r.get_curated_topics == true,
            r.filter_curated_topics_by_creation_date_from is None,
            r.filter_curated_topics_by_creation_date_to is None,
            r.get_creator == false,
    {
        Self {
            short_name: None,
            id: None,
            get_stats: false,
            get_tags: false,
            curated: Some(0),
            curable: Some(0),
            ncomments: Some(0),
            get_followed_topics: false,
            get_curated_topics: true,
            filter_curated_topics_by_creation_date_from: None,
            filter_curated_topics_by_creation_date_to: None,
            get_creator: false,
        }
    }
}

impl GetProfileRequest {
    pub fn endpoint(&self) -> (r: String)
        ensures
            r@ == "profile"@,
    {
        String::from_str("profile")
    }
}

/// Get a topic.
#[derive(Debug, Clone)]
pub struct GetTopicRequest {
    /// The id of the topic to look up; required unless `url_name` is given.
    pub id: Option<u64>,
    /// The url name of the topic to look up; required unless `id` is given.
    pub url_name: Option<String>,
    /// Number of curated posts to retrieve for this topic.
    pub curated: Option<u32>,
    /// Page of curated posts to retrieve.
    pub page: Option<u32>,
    /// Number of curable posts (curator only).
    pub curable: Option<u32>,
    /// Page of curable posts (curator only).
    pub curable_page: Option<u32>,
    /// Sort order of the curated posts.
    pub order: Option<GetTopicOrder>,
    /// Tags to filter by; mandatory when `order` is `Tag`.
    pub tag: Option<Vec<String>>,
    /// Query to search in the topic; mandatory when `order` is `Search`.
    pub q: Option<String>,
    /// Only retrieve curated posts newer than this timestamp.
    pub since: Option<i64>,
    /// With `since`: only posts older than this timestamp.
    pub to: Option<i64>,
    /// Maximum number of comments per curated post.
    pub ncomments: Option<u32>,
    /// Whether the response includes scheduled posts.
    pub show_scheduled: bool,
}

/// Sort order of the curated posts of a topic.
#[derive(Debug, Clone, Copy, PartialEq, Eq, Structural)]
pub enum GetTopicOrder {
    Tag,
    Search,
    CurationDate,
    User,
}

impl GetTopicOrder {
    /// The wire name of this order.
    pub open spec fn spec_query_value(self) -> Seq<char> {
        match self {
            GetTopicOrder::Tag => "tag"@,
            GetTopicOrder::Search => "search"@,
            GetTopicOrder::CurationDate => "curationDate"@,
            GetTopicOrder::User => "user"@,
        }
    }

    pub fn query_value(&self) -> (r: &'static str)
        ensures
            r@ == self.spec_query_value(),
    {
        match self {
            GetTopicOrder::Tag => "tag",
            GetTopicOrder::Search => "search",
            GetTopicOrder::CurationDate => "curationDate",
            GetTopicOrder::User => "user",
        }
    }
}

impl Default for GetTopicRequest {
    /// Sane defaults: the topic and a page of its curated posts.
    fn default() -> (r: Self)
        ensures
            r.id is None,
            r.url_name is None,
            r.curated == Some(30u32),
            r.page is None,
            r.curable == Some(0u32),
            r.curable_page is None,
            r.order is None,
            r.tag is None,
            r.q is None,
            r.since is None,
            r.to is None,
            r.ncomments == Some(100u32),
            r.show_scheduled == false,
    {
        Self {
            id: None,
            url_name: None,
            curated: Some(30),
            page: None,
            curable: Some(0),
            curable_page: None,
            order: None,
            tag: None,
            q: None,
            since: None,
            to: None,
            ncomments: Some(100),
            show_scheduled: false,
        }
    }
}

impl GetTopicRequest {
    pub fn endpoint(&self) -> (r: String)
        ensures
            r@ == "topic"@,
    {
        String::from_str("topic")
    }
}

/// What a search request searches for.
#[derive(Debug, Clone, Copy, PartialEq, Eq, Structural)]
pub enum SearchRequestType {
    User,
    Topic,
    Post,
}

impl SearchRequestType {
    /// The wire name of this search type.
    pub open spec fn spec_query_value(self) -> Seq<char> {
        match self {
            SearchRequestType::User => "user"@,
            SearchRequestType::Topic => "topic"@,
            SearchRequestType::Post => "post"@,
        }
    }

    pub fn query_value(&self) -> (r: &'static str)
        ensures
            r@ == self.spec_query_value(),
    {
        match self {
            SearchRequestType::User => "user",
            SearchRequestType::Topic => "topic",
            SearchRequestType::Post => "post",
        }
    }

    /// The search type a wire name denotes, if any: exactly the three wire
    /// names are accepted.
    pub open spec fn spec_of_wire(s: Seq<char>) -> Option<SearchRequestType> {
        if s == "user"@ {
            Some(SearchRequestType::User)
        } else if s == "topic"@ {
            Some(SearchRequestType::Topic)
        } else if s == "post"@ {
            Some(SearchRequestType::Post)
        } else {
            None
        }
    }

    /// Parses a wire name back into a search type.
    pub fn from_str(s: &str) -> (r: Result<SearchRequestType, Error>)
        ensures
            match r {
                Ok(t) => Self::spec_of_wire(s@) == Some(t),
                Err(e) => Self::spec_of_wire(s@) is None && e@.kind == ErrorKind::Other,
            },
    {
        if strutil::str_eq(s, "user") {
            Ok(SearchRequestType::User)
        } else if strutil::str_eq(s, "topic") {
            Ok(SearchRequestType::Topic)
        } else if strutil::str_eq(s, "post") {
            Ok(SearchRequestType::Post)
        } else {
            let mut m = String::from_str("Invalid request type: ");
            m.append(s);
            Err(Error::other(m))
        }
    }
}

/// Perform a search.
#[derive(Debug, Clone)]
pub struct SearchRequest {
    /// The type of object searched.
    pub search_type: SearchRequestType,
    /// The search query.
    pub query: String,
    /// Number of items per page.
    pub count: Option<u32>,
    /// Page number to return, the first page being 0.
    pub page: Option<u32>,
    /// Language of the content to search into.
    pub lang: Option<String>,
    /// Id of the topic to search posts into.
    pub topic_id: Option<u32>,
    /// Whether to return tags of each returned topic or post.
    pub get_tags: bool,
    /// Whether to return the creator of each returned topic.
    pub get_creator: bool,
    /// Whether to return stats for each returned topic.
    pub get_stats: bool,
    /// Whether to return tags for the topic of each returned post.
    pub get_tags_for_topic: bool,
    /// Whether to return stats for the topic of each returned post.
    pub get_stats_for_topic: bool,
}

impl Default for SearchRequest {
    /// Searches posts with an empty query, a page of 50, creators included.
    fn default() -> (r: Self)
        ensures
            r.search_type == SearchRequestType::Post,
            r.query@ == Seq::<char>::empty(),
            r.count == Some(50u32),
            r.page is None,
            r.lang is None,
            r.topic_id is None,
            r.get_tags == false,
            r.get_creator == true,
            r.get_stats == false,
            r.get_tags_for_topic == false,
            r.get_stats_for_topic == false,
    {
        Self {
            search_type: SearchRequestType::Post,
            query: String::new(),
            count: Some(50),
            page: None,
            lang: None,
            topic_id: None,
            get_tags: false,
            get_creator: true,
            get_stats: false,
            get_tags_for_topic: false,
            get_stats_for_topic: false,
        }
    }
}

impl SearchRequest {
    pub fn endpoint(&self) -> (r: String)
        ensures
            r@ == "search"@,
    {
        String::from_str("search")
    }
}

/// Get the list of recipients lists.
#[derive(Debug, Clone)]
pub struct GetRecipientsListRequest {
}

impl Default for GetRecipientsListRequest {
    fn default() -> (r: Self) {
        Self {  }
    }
}

impl GetRecipientsListRequest {
    pub fn endpoint(&self) -> (r: String)
        ensures
            r@ == "recipients-list"@,
    {
        String::from_str("recipients-list")
    }
}

/// Test authentication credentials.
#[derive(Debug, Clone)]
pub struct TestRequest {
}

impl Default for TestRequest {
    fn default() -> (r: Self) {
        Self {  }
    }
}

impl TestRequest {
    pub fn endpoint(&self) -> (r: String)
        ensures
            r@ == "test"@,
    {
        String::from_str("test")
    }
}

/// Log in with an e-mail address and password.
#[derive(Debug, Clone)]
pub struct LoginRequest {
    pub email: String,
    pub password: String,
}

impl LoginRequest {
    pub fn endpoint(&self) -> (r: String)
        ensures
            r@ == "login"@,
    {
        String::from_str("login")
    }

    pub fn method(&self) -> (r: HttpMethod)
        ensures
            r == HttpMethod::Post,
    {
        HttpMethod::Post
    }
}

/// Get the list of available suggestion engines.
#[derive(Debug, Clone)]
pub struct GetSuggestionEnginesRequest {
}

impl Default for GetSuggestionEnginesRequest {
    fn default() -> (r: Self) {
        Self {  }
    }
}

impl GetSuggestionEnginesRequest {
    pub fn endpoint(&self) -> (r: String)
        ensures
            r@ == "se"@,
    {
        String::from_str("se")
    }
}

/// Get manual user sources of a suggestion engine.
#[derive(Debug, Clone)]
pub struct GetSuggestionEngineSourcesRequest {
    /// Carried in the endpoint path, not in the query string.
    pub suggestion_engine_id: i64,
}

impl GetSuggestionEngineSourcesRequest {
    pub fn endpoint(&self) -> (r: String)
        ensures
            r@ == "se/"@ + spec_dec_int(self.suggestion_engine_id as int) + "/sources"@,
    {
        let mut s = String::from_str("se/");
        s.append(strutil::dec_i64(self.suggestion_engine_id).as_str());
        s.append("/sources");
        assert(s@ =~= "se/"@ + spec_dec_int(self.suggestion_engine_id as int) + "/sources"@);
        s
    }
}

/// Delete a manually added source from a suggestion engine.
#[derive(Debug, Clone)]
pub struct DeleteSuggestionEngineSourceRequest {
    /// Carried in the endpoint path, not in the body.
    pub suggestion_engine_id: i64,
    /// Carried in the endpoint path, not in the body.
    pub source_id: i64,
}

impl DeleteSuggestionEngineSourceRequest {
    pub fn endpoint(&self) -> (r: String)
        ensures
            r@ == "se/"@ + spec_dec_int(self.suggestion_engine_id as int) + "/sources/"@
                + spec_dec_int(self.source_id as int),
    {
        let mut s = String::from_str("se/");
        s.append(strutil::dec_i64(self.suggestion_engine_id).as_str());
        s.append("/sources/");
        s.append(strutil::dec_i64(self.source_id).as_str());
        assert(s@ =~= "se/"@ + spec_dec_int(self.suggestion_engine_id as int) + "/sources/"@
            + spec_dec_int(self.source_id as int));
        s
    }

    pub fn method(&self) -> (r: HttpMethod)
        ensures
            r == HttpMethod::Delete,
    {
        HttpMethod::Delete
    }
}

/// Update a manually added source of a suggestion engine.
#[derive(Debug, Clone)]
pub struct UpdateSuggestionEngineSourceRequest {
    /// Carried in the endpoint path, not in the body.
    pub suggestion_engine_id: i64,
    /// Carried in the endpoint path, not in the body.
    pub source_id: i64,
    pub name: Option<String>,
}

impl UpdateSuggestionEngineSourceRequest {
    pub fn endpoint(&self) -> (r: String)
        ensures
            r@ == "se/"@ + spec_dec_int(self.suggestion_engine_id as int) + "/sources/"@
                + spec_dec_int(self.source_id as int),
    {
        let mut s = String::from_str("se/");
        s.append(strutil::dec_i64(self.suggestion_engine_id).as_str());
        s.append("/sources/");
        s.append(strutil::dec_i64(self.source_id).as_str());
        assert(s@ =~= "se/"@ + spec_dec_int(self.suggestion_engine_id as int) + "/sources/"@
            + spec_dec_int(self.source_id as int));
        s
    }

    pub fn method(&self) -> (r: HttpMethod)
        ensures
            r == HttpMethod::Post,
    {
        HttpMethod::Post
    }
}

/// Create a suggestion engine source.
#[derive(Debug, Clone)]
pub struct CreateSuggestionEngineSourceRequest {
    /// Carried in the endpoint path, not in the body.
    pub suggestion_engine_id: i64,
    pub name: Option<String>,
    /// Kind-specific fields, flattened into the body under a `type` tag.
    pub source_data: SourceTypeData,
}

impl CreateSuggestionEngineSourceRequest {
    pub fn endpoint(&self) -> (r: String)
        ensures
            r@ == "se/"@ + spec_dec_int(self.suggestion_engine_id as int) + "/sources"@,
    {
        let mut s = String::from_str("se/");
        s.append(strutil::dec_i64(self.suggestion_engine_id).as_str());
        s.append("/sources");
        assert(s@ =~= "se/"@ + spec_dec_int(self.suggestion_engine_id as int) + "/sources"@);
        s
    }

    pub fn method(&self) -> (r: HttpMethod)
        ensures
            r == HttpMethod::Put,
    {
        HttpMethod::Put
    }
}

/// Get the data about a topic group.
#[derive(Debug, Clone)]
pub struct GetTopicGroupRequest {
    pub url_name: String,
    /// Privileged apps may specify a company id.
    pub company_id: Option<i64>,
}

impl GetTopicGroupRequest {
    pub fn endpoint(&self) -> (r: String)
        ensures
            r@ == "topic-group"@,
    {
        String::from_str("topic-group")
    }
}

/// Get a compilation of posts across topics.
#[derive(Debug, Clone)]
pub struct GetCompilationRequest {
    /// Method used for sorting posts; the RSS order when absent.
    pub sort: Option<GetCompilationSort>,
    /// Topic ids that make up the compilation.
    pub topic_ids: Option<Vec<i64>>,
    /// Build the compilation from the topics of this topic group.
    pub topic_group_id: Option<i64>,
    /// No posts older than this timestamp (millis from unix epoch).
    pub since: Option<i64>,
    /// Maximum number of posts to return.
    pub count: Option<u32>,
    /// Page number of posts to retrieve.
    pub page: Option<u32>,
    /// Maximum number of comments per returned post.
    pub ncomments: Option<u32>,
    /// Whether to return the tags of each returned post.
    pub get_tags: Option<bool>,
    /// Whether to return tags for the topic of each returned post.
    pub get_tags_for_topic: Option<bool>,
    /// Whether to return stats for the topic of each returned post.
    pub get_stats_for_topic: Option<bool>,
}

/// Sort order of a compilation.
#[derive(Debug, Clone, Copy, PartialEq, Eq, Structural)]
pub enum GetCompilationSort {
    /// Posts ordered like in the RSS feed.
    Rss,
    /// Posts ordered like in the followed-topics timeline.
    Timeline,
}

impl GetCompilationSort {
    /// The wire name of this sort order.
    pub open spec fn spec_query_value(self) -> Seq<char> {
        match self {
            GetCompilationSort::Rss => "rss"@,
            GetCompilationSort::Timeline => "timeline"@,
        }
    }

    pub fn query_value(&self) -> (r: &'static str)
        ensures
            r@ == self.spec_query_value(),
    {
        match self {
            GetCompilationSort::Rss => "rss",
            GetCompilationSort::Timeline => "timeline",
        }
    }
}

impl Default for GetCompilationRequest {
    /// Everything absent: the server-side defaults apply.
    fn default() -> (r: Self)
        ensures
            r.sort is None,
            r.topic_ids is None,
            r.topic_group_id is None,
            r.since is None,
            r.count is None,
            r.page is None,
            r.ncomments is None,
            r.get_tags is None,
            r.get_tags_for_topic is None,
            r.get_stats_for_topic is None,
    {
        Self {
            sort: None,
            topic_ids: None,
            topic_group_id: None,
            since: None,
            count: None,
            page: None,
            ncomments: None,
            get_tags: None,
            get_tags_for_topic: None,
            get_stats_for_topic: None,
        }
    }
}

impl GetCompilationRequest {
    pub fn endpoint(&self) -> (r: String)
        ensures
            r@ == "compilation"@,
    {
        String::from_str("compilation")
    }
}

impl GetProfileRequest {
    /// The exact query string of this request: the fields in declaration
    /// order under their wire names, absent options omitted.
    pub open spec fn spec_query(self) -> Seq<char> {
        let s1 = match self.short_name {
            Some(v) => qs_push(Seq::empty(), "shortName"@, form_encoded(v@)),
            None => Seq::empty(),
        };
        let s2 = match self.id {
            Some(v) => qs_push(s1, "id"@, form_encoded(v@)),
            None => s1,
        };
        let s3 = qs_push(s2, "getStats"@, spec_bool(self.get_stats));
        let s4 = qs_push(s3, "getTags"@, spec_bool(self.get_tags));
        let s5 = match self.curated {
            Some(v) => qs_push(s4, "curated"@, spec_dec_nat(v as nat)),
            None => s4,
        };
        let s6 = match self.curable {
            Some(v) => qs_push(s5, "curable"@, spec_dec_nat(v as nat)),
            None => s5,
        };
        let s7 = match self.ncomments {
            Some(v) => qs_push(s6, "ncomments"@, spec_dec_nat(v as nat)),
            None => s6,
        };
        let s8 = qs_push(s7, "getFollowedTopics"@, spec_bool(self.get_followed_topics));
        let s9 = qs_push(s8, "getCuratedTopics"@, spec_bool(self.get_curated_topics));
        let s10 = match self.filter_curated_topics_by_creation_date_from {
            Some(v) => qs_push(s9, "filterCuratedTopicsByCreationDateFrom"@, spec_dec_nat(v as nat)),
            None => s9,
        };
        let s11 = match self.filter_curated_topics_by_creation_date_to {
            Some(v) => qs_push(s10, "filterCuratedTopicsByCreationDateTo"@, spec_dec_nat(v as nat)),
            None => s10,
        };
        qs_push(s11, "getCreator"@, spec_bool(self.get_creator))
    }

    /// Serializes the request as its query string.
    pub fn query_string(&self) -> (r: String)
        ensures
            r@ == self.spec_query(),
    {
        let mut out = String::new();
        if let Some(v) = &self.short_name {
            append_pair_encoded(&mut out, "shortName", v.as_str());
        }
        if let Some(v) = &self.id {
            append_pair_encoded(&mut out, "id", v.as_str());
        }
        append_pair(&mut out, "getStats", strutil::bool_str(self.get_stats));
        append_pair(&mut out, "getTags", strutil::bool_str(self.get_tags));
        if let Some(v) = self.curated {
            append_pair(&mut out, "curated", strutil::dec_u32(v).as_str());
        }
        if let Some(v) = self.curable {
            append_pair(&mut out, "curable", strutil::dec_u32(v).as_str());
        }
        if let Some(v) = self.ncomments {
            append_pair(&mut out, "ncomments", strutil::dec_u32(v).as_str());
        }
        append_pair(&mut out, "getFollowedTopics", strutil::bool_str(self.get_followed_topics));
        append_pair(&mut out, "getCuratedTopics", strutil::bool_str(self.get_curated_topics));
        if let Some(v) = self.filter_curated_topics_by_creation_date_from {
            append_pair(&mut out, "filterCuratedTopicsByCreationDateFrom", strutil::dec_u64(v).as_str());
        }
        if let Some(v) = self.filter_curated_topics_by_creation_date_to {
            append_pair(&mut out, "filterCuratedTopicsByCreationDateTo", strutil::dec_u64(v).as_str());
        }
        append_pair(&mut out, "getCreator", strutil::bool_str(self.get_creator));
        out
    }
}

impl GetTopicRequest {
    /// The exact query string of this request: the fields in declaration
    /// order under their wire names, absent options omitted, tags as
    /// repeated `tag=` pairs.
    pub open spec fn spec_query(self) -> Seq<char> {
        let s1 = match self.id {
            Some(v) => qs_push(Seq::empty(), "id"@, spec_dec_nat(v as nat)),
            None => Seq::empty(),
        };
        let s2 = match self.url_name {
            Some(v) => qs_push(s1, "urlName"@, form_encoded(v@)),
            None => s1,
        };
        let s3 = match self.curated {
            Some(v) => qs_push(s2, "curated"@, spec_dec_nat(v as nat)),
            None => s2,
        };
        let s4 = match self.page {
            Some(v) => qs_push(s3, "page"@, spec_dec_nat(v as nat)),
            None => s3,
        };
        let s5 = match self.curable {
            Some(v) => qs_push(s4, "curable"@, spec_dec_nat(v as nat)),
            None => s4,
        };
        let s6 = match self.curable_page {
            Some(v) => qs_push(s5, "curablePage"@, spec_dec_nat(v as nat)),
            None => s5,
        };
        let s7 = match self.order {
            Some(o) => qs_push(s6, "order"@, o.spec_query_value()),
            None => s6,
        };
        let s8 = match self.tag {
            Some(ts) => strutil::qs_push_all(
                s7,
                "tag"@,
                ts@.map_values(|t: String| form_encoded(t@)),
            ),
            None => s7,
        };
        let s9 = match self.q {
            Some(v) => qs_push(s8, "q"@, form_encoded(v@)),
            None => s8,
        };
        let s10 = match self.since {
            Some(v) => qs_push(s9, "since"@, spec_dec_int(v as int)),
            None => s9,
        };
        let s11 = match self.to {
            Some(v) => qs_push(s10, "to"@, spec_dec_int(v as int)),
            None => s10,
        };
        let s12 = match self.ncomments {
            Some(v) => qs_push(s11, "ncomments"@, spec_dec_nat(v as nat)),
            None => s11,
        };
        qs_push(s12, "showScheduled"@, spec_bool(self.show_scheduled))
    }

    /// Serializes the request as its query string.
    pub fn query_string(&self) -> (r: String)
        ensures
            r@ == self.spec_query(),
    {
        let mut out = String::new();
        if let Some(v) = self.id {
            append_pair(&mut out, "id", strutil::dec_u64(v).as_str());
        }
        if let Some(v) = &self.url_name {
            append_pair_encoded(&mut out, "urlName", v.as_str());
        }
        if let Some(v) = self.curated {
            append_pair(&mut out, "curated", strutil::dec_u32(v).as_str());
        }
        if let Some(v) = self.page {
            append_pair(&mut out, "page", strutil::dec_u32(v).as_str());
        }
        if let Some(v) = self.curable {
            append_pair(&mut out, "curable", strutil::dec_u32(v).as_str());
        }
        if let Some(v) = self.curable_page {
            append_pair(&mut out, "curablePage", strutil::dec_u32(v).as_str());
        }
        if let Some(o) = &self.order {
            append_pair(&mut out, "order", o.query_value());
        }
        if let Some(ts) = &self.tag {
            strutil::append_pairs_encoded(&mut out, "tag", ts);
        }
        if let Some(v) = &self.q {
            append_pair_encoded(&mut out, "q", v.as_str());
        }
        if let Some(v) = self.since {
            append_pair(&mut out, "since", strutil::dec_i64(v).as_str());
        }
        if let Some(v) = self.to {
            append_pair(&mut out, "to", strutil::dec_i64(v).as_str());
        }
        if let Some(v) = self.ncomments {
            append_pair(&mut out, "ncomments", strutil::dec_u32(v).as_str());
        }
        append_pair(&mut out, "showScheduled", strutil::bool_str(self.show_scheduled));
        out
    }
}

impl SearchRequest {
    /// The exact query string of this request: the search type under the
    /// wire name `type`, then the remaining fields in declaration order.
    pub open spec fn spec_query(self) -> Seq<char> {
        let s1 = qs_push(Seq::empty(), "type"@, self.search_type.spec_query_value());
        let s2 = qs_push(s1, "query"@, form_encoded(self.query@));
        let s3 = match self.count {
            Some(v) => qs_push(s2, "count"@, spec_dec_nat(v as nat)),
            None => s2,
        };
        let s4 = match self.page {
            Some(v) => qs_push(s3, "page"@, spec_dec_nat(v as nat)),
            None => s3,
        };
        let s5 = match self.lang {
            Some(v) => qs_push(s4, "lang"@, form_encoded(v@)),
            None => s4,
        };
        let s6 = match self.topic_id {
            Some(v) => qs_push(s5, "topicId"@, spec_dec_nat(v as nat)),
            None => s5,
        };
        let s7 = qs_push(s6, "getTags"@, spec_bool(self.get_tags));
        let s8 = qs_push(s7, "getCreator"@, spec_bool(self.get_creator));
        let s9 = qs_push(s8, "getStats"@, spec_bool(self.get_stats));
        let s10 = qs_push(s9, "getTagsForTopic"@, spec_bool(self.get_tags_for_topic));
        qs_push(s10, "getStatsForTopic"@, spec_bool(self.get_stats_for_topic))
    }

    /// Serializes the request as its query string.
    pub fn query_string(&self) -> (r: String)
        ensures
            r@ == self.spec_query(),
    {
        let mut out = String::new();
        append_pair(&mut out, "type", self.search_type.query_value());
        append_pair_encoded(&mut out, "query", self.query.as_str());
        if let Some(v) = self.count {
            append_pair(&mut out, "count", strutil::dec_u32(v).as_str());
        }
        if let Some(v) = self.page {
            append_pair(&mut out, "page", strutil::dec_u32(v).as_str());
        }
        if let Some(v) = &self.lang {
            append_pair_encoded(&mut out, "lang", v.as_str());
        }
        if let Some(v) = self.topic_id {
            append_pair(&mut out, "topicId", strutil::dec_u32(v).as_str());
        }
        append_pair(&mut out, "getTags", strutil::bool_str(self.get_tags));
        append_pair(&mut out, "getCreator", strutil::bool_str(self.get_creator));
        append_pair(&mut out, "getStats", strutil::bool_str(self.get_stats));
        append_pair(&mut out, "getTagsForTopic", strutil::bool_str(self.get_tags_for_topic));
        append_pair(&mut out, "getStatsForTopic", strutil::bool_str(self.get_stats_for_topic));
        out
    }
}

impl GetRecipientsListRequest {
    /// This request carries no query parameters.
    pub fn query_string(&self) -> (r: String)
        ensures
            r@ == Seq::<char>::empty(),
    {
        String::new()
    }
}

impl TestRequest {
    /// This request carries no query parameters.
    pub fn query_string(&self) -> (r: String)
        ensures
            r@ == Seq::<char>::empty(),
    {
        String::new()
    }
}

impl GetSuggestionEnginesRequest {
    /// This request carries no query parameters.
    pub fn query_string(&self) -> (r: String)
        ensures
            r@ == Seq::<char>::empty(),
    {
        String::new()
    }
}

impl GetSuggestionEngineSourcesRequest {
    /// The engine id travels in the endpoint path; the query is empty.
    pub fn query_string(&self) -> (r: String)
        ensures
            r@ == Seq::<char>::empty(),
    {
        String::new()
    }
}

impl GetTopicGroupRequest {
    /// The exact query string of this request.
    pub open spec fn spec_query(self) -> Seq<char> {
        let s1 = qs_push(Seq::empty(), "urlName"@, form_encoded(self.url_name@));
        match self.company_id {
            Some(v) => qs_push(s1, "companyId"@, spec_dec_int(v as int)),
            None => s1,
        }
    }

    /// Serializes the request as its query string.
    pub fn query_string(&self) -> (r: String)
        ensures
            r@ == self.spec_query(),
    {
        let mut out = String::new();
        append_pair_encoded(&mut out, "urlName", self.url_name.as_str());
        if let Some(v) = self.company_id {
            append_pair(&mut out, "companyId", strutil::dec_i64(v).as_str());
        }
        out
    }
}

impl GetCompilationRequest {
    /// The exact query string of this request: the fields in declaration
    /// order, absent options omitted, topic ids as repeated `topicIds=`
    /// pairs.
    pub open spec fn spec_query(self) -> Seq<char> {
        let s1 = match self.sort {
            Some(o) => qs_push(Seq::empty(), "sort"@, o.spec_query_value()),
            None => Seq::empty(),
        };
        let s2 = match self.topic_ids {
            Some(ids) => strutil::qs_push_all(
                s1,
                "topicIds"@,
                ids@.map_values(|x: i64| spec_dec_int(x as int)),
            ),
            None => s1,
        };
        let s3 = match self.topic_group_id {
            Some(v) => qs_push(s2, "topicGroupId"@, spec_dec_int(v as int)),
            None => s2,
        };
        let s4 = match self.since {
            Some(v) => qs_push(s3, "since"@, spec_dec_int(v as int)),
            None => s3,
        };
        let s5 = match self.count {
            Some(v) => qs_push(s4, "count"@, spec_dec_nat(v as nat)),
            None => s4,
        };
        let s6 = match self.page {
            Some(v) => qs_push(s5, "page"@, spec_dec_nat(v as nat)),
            None => s5,
        };
        let s7 = match self.ncomments {
            Some(v) => qs_push(s6, "ncomments"@, spec_dec_nat(v as nat)),
            None => s6,
        };
        let s8 = match self.get_tags {
            Some(v) => qs_push(s7, "getTags"@, spec_bool(v)),
            None => s7,
        };
        let s9 = match self.get_tags_for_topic {
            Some(v) => qs_push(s8, "getTagsForTopic"@, spec_bool(v)),
            None => s8,
        };
        match self.get_stats_for_topic {
            Some(v) => qs_push(s9, "getStatsForTopic"@, spec_bool(v)),
            None => s9,
        }
    }

    /// Serializes the request as its query string.
    pub fn query_string(&self) -> (r: String)
        ensures
            r@ == self.spec_query(),
    {
        let mut out = String::new();
        if let Some(o) = &self.sort {
            append_pair(&mut out, "sort", o.query_value());
        }
        if let Some(ids) = &self.topic_ids {
            strutil::append_pairs_dec_i64(&mut out, "topicIds", ids);
        }
        if let Some(v) = self.topic_group_id {
            append_pair(&mut out, "topicGroupId", strutil::dec_i64(v).as_str());
        }
        if let Some(v) = self.since {
            append_pair(&mut out, "since", strutil::dec_i64(v).as_str());
        }
        if let Some(v) = self.count {
            append_pair(&mut out, "count", strutil::dec_u32(v).as_str());
        }
        if let Some(v) = self.page {
            append_pair(&mut out, "page", strutil::dec_u32(v).as_str());
        }
        if let Some(v) = self.ncomments {
            append_pair(&mut out, "ncomments", strutil::dec_u32(v).as_str());
        }
        if let Some(v) = self.get_tags {
            append_pair(&mut out, "getTags", strutil::bool_str(v));
        }
        if let Some(v) = self.get_tags_for_topic {
            append_pair(&mut out, "getTagsForTopic", strutil::bool_str(v));
        }
        if let Some(v) = self.get_stats_for_topic {
            append_pair(&mut out, "getStatsForTopic", strutil::bool_str(v));
        }
        out
    }
}

impl LoginRequest {
    /// The exact form body of this request.
    pub open spec fn spec_body(self) -> Seq<char> {
        qs_push(
            qs_push(Seq::empty(), "email"@, form_encoded(self.email@)),
            "password"@,
            form_encoded(self.password@),
        )
    }

    /// Serializes the request as its UTF-8 form body.
    pub fn body(&self) -> (r: Vec<u8>)
        ensures
            r@ == vstd::utf8::encode_utf8(self.spec_body()),
    {
        let mut out = String::new();
        append_pair_encoded(&mut out, "email", self.email.as_str());
        append_pair_encoded(&mut out, "password", self.password.as_str());
        out.as_str().as_bytes_vec()
    }
}

impl DeleteSuggestionEngineSourceRequest {
    /// Both ids travel in the endpoint path; the body is empty.
    pub fn body(&self) -> (r: Vec<u8>)
        ensures
            r@ == Seq::<u8>::empty(),
    {
        let out = String::new();
        let r = out.as_str().as_bytes_vec();
        assert(r@ =~= Seq::<u8>::empty());
        r
    }
}

impl UpdateSuggestionEngineSourceRequest {
    /// The exact form body of this request: the ids travel in the endpoint
    /// path, so only a present `name` is serialized.
    pub open spec fn spec_body(self) -> Seq<char> {
        match self.name {
            Some(n) => qs_push(Seq::empty(), "name"@, form_encoded(n@)),
            None => Seq::empty(),
        }
    }

    /// Serializes the request as its UTF-8 form body.
    pub fn body(&self) -> (r: Vec<u8>)
        ensures
            r@ == vstd::utf8::encode_utf8(self.spec_body()),
    {
        let mut out = String::new();
        if let Some(n) = &self.name {
            append_pair_encoded(&mut out, "name", n.as_str());
        }
        out.as_str().as_bytes_vec()
    }
}

impl SourceTypeData {
    /// Appends this variant's wire fields to `acc`: the variant's snake-case
    /// name under the `type` key, then its fields under their wire names.
    pub open spec fn spec_push_fields(self, acc: Seq<char>) -> Seq<char> {
        match self {
            SourceTypeData::AdvancedSearch { query } => qs_push(
                qs_push(acc, "type"@, "advanced_search"@),
                "query"@,
                form_encoded(query@),
            ),
            SourceTypeData::Webpage { webpage_url } => qs_push(
                qs_push(acc, "type"@, "webpage"@),
                "webpageUrl"@,
                form_encoded(webpage_url@),
            ),
            SourceTypeData::Rss { rss_url } => qs_push(
                qs_push(acc, "type"@, "rss"@),
                "rssUrl"@,
                form_encoded(rss_url@),
            ),
            SourceTypeData::TwitterSearch { twitter_search_query } => qs_push(
                qs_push(acc, "type"@, "twitter_search"@),
                "twitterSearchQuery"@,
                form_encoded(twitter_search_query@),
            ),
            SourceTypeData::TwitterList { twitter_list_name, twitter_list_owner } => qs_push(
                qs_push(
                    qs_push(acc, "type"@, "twitter_list"@),
                    "twitterListName"@,
                    form_encoded(twitter_list_name@),
                ),
                "twitterListOwner"@,
                form_encoded(twitter_list_owner@),
            ),
            SourceTypeData::TwitterFollowUser { twitter_user } => qs_push(
                qs_push(acc, "type"@, "twitter_follow_user"@),
                "twitterUser"@,
                form_encoded(twitter_user@),
            ),
            SourceTypeData::YoutubeSearch => qs_push(acc, "type"@, "youtube_search"@),
            SourceTypeData::FacebookPage => qs_push(acc, "type"@, "facebook_page"@),
            SourceTypeData::ScoopitUser => qs_push(acc, "type"@, "scoopit_user"@),
            SourceTypeData::ScoopitTheme => qs_push(acc, "type"@, "scoopit_theme"@),
        }
    }

    /// Appends this variant's wire fields to `out`.
    pub fn append_fields(&self, out: &mut String)
        ensures
            final(out)@ == self.spec_push_fields(old(out)@),
    {
        match self {
            SourceTypeData::AdvancedSearch { query } => {
                append_pair(out, "type", "advanced_search");
                append_pair_encoded(out, "query", query.as_str());
            },
            SourceTypeData::Webpage { webpage_url } => {
                append_pair(out, "type", "webpage");
                append_pair_encoded(out, "webpageUrl", webpage_url.as_str());
            },
            SourceTypeData::Rss { rss_url } => {
                append_pair(out, "type", "rss");
                append_pair_encoded(out, "rssUrl", rss_url.as_str());
            },
            SourceTypeData::TwitterSearch { twitter_search_query } => {
                append_pair(out, "type", "twitter_search");
                append_pair_encoded(out, "twitterSearchQuery", twitter_search_query.as_str());
            },
            SourceTypeData::TwitterList { twitter_list_name, twitter_list_owner } => {
                append_pair(out, "type", "twitter_list");
                append_pair_encoded(out, "twitterListName", twitter_list_name.as_str());
                append_pair_encoded(out, "twitterListOwner", twitter_list_owner.as_str());
            },
            SourceTypeData::TwitterFollowUser { twitter_user } => {
                append_pair(out, "type", "twitter_follow_user");
                append_pair_encoded(out, "twitterUser", twitter_user.as_str());
            },
            SourceTypeData::YoutubeSearch => {
                append_pair(out, "type", "youtube_search");
            },
            SourceTypeData::FacebookPage => {
                append_pair(out, "type", "facebook_page");
            },
            SourceTypeData::ScoopitUser => {
                append_pair(out, "type", "scoopit_user");
            },
            SourceTypeData::ScoopitTheme => {
                append_pair(out, "type", "scoopit_theme");
            },
        }
    }
}

impl CreateSuggestionEngineSourceRequest {
    /// The exact form body of this request: the engine id travels in the
    /// endpoint path, a present `name` comes first, then the source data.
    pub open spec fn spec_body(self) -> Seq<char> {
        let s1 = match self.name {
            Some(n) => qs_push(Seq::empty(), "name"@, form_encoded(n@)),
            None => Seq::empty(),
        };
        self.source_data.spec_push_fields(s1)
    }

    /// Serializes the request as its UTF-8 form body.
    pub fn body(&self) -> (r: Vec<u8>)
        ensures
            r@ == vstd::utf8::encode_utf8(self.spec_body()),
    {
        let mut out = String::new();
        if let Some(n) = &self.name {
            append_pair_encoded(&mut out, "name", n.as_str());
        }
        self.source_data.append_fields(&mut out);
        out.as_str().as_bytes_vec()
    }
}


/// Builds the error for a response whose body carried an `error` field.
fn server_error(error: String) -> (r: Error)
    ensures
        r@.kind == ErrorKind::Other,
        r@.message == "Server returned an error: "@ + error@,
{
    let mut m = String::from_str("Server returned an error: ");
    m.append(error.as_str());
    Error::other(m)
}

/// The wire response of a topic lookup.
#[derive(Debug)]
pub struct TopicResponse {
    pub topic: Option<Topic>,
    pub error: Option<String>,
}

impl Topic {
    /// Extracts the topic from a wire response: the topic exactly when the
    /// server reported no error and sent one.
    pub fn try_from(value: TopicResponse) -> (r: Result<Topic, Error>)
        ensures
            r is Ok <==> value.error is None && value.topic is Some,
            r matches Ok(t) ==> value.topic == Some(t),
            r matches Err(e) ==> e@.kind == ErrorKind::Other,
    {
        if let Some(error) = value.error {
            Err(server_error(error))
        } else {
            match value.topic {
                Some(t) => Ok(t),
                None => Err(Error::other(String::from_str("No user no topic in response body!"))),
            }
        }
    }
}

/// The wire response of a profile lookup.
#[derive(Debug)]
pub struct UserResponse {
    pub user: Option<User>,
    pub error: Option<String>,
}

impl User {
    /// Extracts the user from a wire response: the user exactly when the
    /// server reported no error and sent one.
    pub fn try_from(value: UserResponse) -> (r: Result<User, Error>)
        ensures
            r is Ok <==> value.error is None && value.user is Some,
            r matches Ok(u) ==> value.user == Some(u),
            r matches Err(e) ==> e@.kind == ErrorKind::Other,
    {
        if let Some(error) = value.error {
            Err(server_error(error))
        } else {
            match value.user {
                Some(u) => Ok(u),
                None => Err(Error::other(String::from_str("No user nor error in response body!"))),
            }
        }
    }
}

/// The wire response of a search.
#[derive(Debug)]
pub struct SearchResponse {
    pub users: Option<Vec<User>>,
    pub topics: Option<Vec<Topic>>,
    pub posts: Option<Vec<Post>>,
    pub total_found: i32,
}

impl SearchResults {
    /// Repacks a search response; this conversion never fails.
    pub fn try_from(value: SearchResponse) -> (r: Result<SearchResults, Error>)
        ensures
            r matches Ok(s) && s.users == value.users && s.topics == value.topics && s.posts
                == value.posts && s.total_found == value.total_found,
    {
        let SearchResponse { users, topics, posts, total_found } = value;
        Ok(SearchResults { users, topics, posts, total_found })
    }
}

/// The wire response of a recipients-list lookup.
#[derive(Debug)]
pub struct GetRecipientsListResponse {
    pub list: Vec<RecipientsList>,
}

impl GetRecipientsListResponse {
    /// Unwraps the list; this conversion never fails.
    pub fn into_list(self) -> (r: Vec<RecipientsList>)
        ensures
            r == self.list,
    {
        self.list
    }
}

/// The wire response of a credentials test.
#[derive(Debug)]
pub struct TestResponse {
    pub connected_user: Option<String>,
    pub error: Option<String>,
}

impl TestResponse {
    /// Extracts the connected user: the (possibly absent) user name exactly
    /// when the server reported no error.
    pub fn into_connected_user(self) -> (r: Result<Option<String>, Error>)
        ensures
            r is Ok <==> self.error is None,
            r matches Ok(u) ==> u == self.connected_user,
            r matches Err(e) ==> e@.kind == ErrorKind::Other,
    {
        if let Some(error) = self.error {
            Err(server_error(error))
        } else {
            Ok(self.connected_user)
        }
    }
}

/// The wire response of a login: a token, or a list of what went wrong.
#[derive(Debug)]
pub enum LoginResponse {
    Success { access_token: LoginAccessToken },
    Failure { errors: Vec<String> },
}

/// The token pair a successful login returns.
#[derive(Debug, Clone)]
pub struct LoginAccessToken {
    pub oauth_token: String,
    pub oauth_token_secret: String,
}

impl LoginAccessToken {
    /// Extracts the token from a login response; a failed login yields an
    /// error joining the server's complaints.
    pub fn try_from(value: LoginResponse) -> (r: Result<LoginAccessToken, Error>)
        ensures
            match value {
                LoginResponse::Success { access_token } => r == Ok::<LoginAccessToken, Error>(
                    access_token,
                ),
                LoginResponse::Failure { errors } => r matches Err(e) && e@.kind == ErrorKind::Other
                    && e@.message == "Unable to login with errors: "@ + strutil::spec_join(
                    errors@.map_values(|v: String| v@),
                    ", "@,
                ),
            },
    {
        match value {
            LoginResponse::Success { access_token } => Ok(access_token),
            LoginResponse::Failure { errors } => {
                let mut m = String::from_str("Unable to login with errors: ");
                m.append(strutil::join(&errors, ", ").as_str());
                Err(Error::other(m))
            },
        }
    }
}

/// The wire response of a suggestion-engines lookup.
#[derive(Debug)]
pub enum GetSuggestionEnginesResponse {
    Success { suggestion_engines: Vec<SuggestionEngine> },
    Failure { error: String },
}

impl GetSuggestionEnginesResponse {
    /// Extracts the engines: the list exactly when the server reported no
    /// error.
    pub fn into_engines(self) -> (r: Result<Vec<SuggestionEngine>, Error>)
        ensures
            match self {
                GetSuggestionEnginesResponse::Success { suggestion_engines } => r == Ok::<
                    Vec<SuggestionEngine>,
                    Error,
                >(suggestion_engines),
                GetSuggestionEnginesResponse::Failure { error } => r matches Err(e) && e@.kind
                    == ErrorKind::Other,
            },
    {
        match self {
            GetSuggestionEnginesResponse::Success { suggestion_engines } => Ok(suggestion_engines),
            GetSuggestionEnginesResponse::Failure { error } => Err(server_error(error)),
        }
    }
}

/// The wire response of an update that returns no payload: empty on
/// success, an `error` field otherwise.
#[derive(Debug)]
pub enum EmptyUpdateResponse {
    Failure { error: String },
    Success {},
}

impl EmptyUpdateResponse {
    /// Whether the update succeeded.
    pub fn is_ok(&self) -> (r: bool)
        ensures
            r == (self matches EmptyUpdateResponse::Success {  }),
    {
        if let EmptyUpdateResponse::Success {  } = &self {
            true
        } else {
            false
        }
    }

    /// Whether the update failed.
    pub fn is_err(&self) -> (r: bool)
        ensures
            r == (self matches EmptyUpdateResponse::Failure { .. }),
    {
        !self.is_ok()
    }

    /// Turns the response into a result: `Ok` exactly on success.
    pub fn into_result(self) -> (r: Result<(), Error>)
        ensures
            r is Ok <==> self matches EmptyUpdateResponse::Success {  },
            r matches Err(e) ==> e@.kind == ErrorKind::Other,
    {
        match self {
            EmptyUpdateResponse::Failure { error } => Err(server_error(error)),
            EmptyUpdateResponse::Success {  } => Ok(()),
        }
    }
}

/// The wire response of a source lookup.
#[derive(Debug)]
pub enum GetSuggestionEngineSourcesResponse {
    Success { sources: Vec<Source> },
    Failure { error: String },
}

impl GetSuggestionEngineSourcesResponse {
    /// Extracts the sources: the list exactly when the server reported no
    /// error.
    pub fn into_sources(self) -> (r: Result<Vec<Source>, Error>)
        ensures
            match self {
                GetSuggestionEngineSourcesResponse::Success { sources } => r matches Ok(ss) && ss
                    == sources,
                GetSuggestionEngineSourcesResponse::Failure { error } => r matches Err(e)
                    && e@.kind == ErrorKind::Other,
            },
    {
        match self {
            GetSuggestionEngineSourcesResponse::Success { sources } => Ok(sources),
            GetSuggestionEngineSourcesResponse::Failure { error } => Err(server_error(error)),
        }
    }
}

/// The wire response of a source creation.
#[derive(Debug)]
pub enum CreateSuggestionEngineSourceResponse {
    Success { source: Source },
    Failure { error: String },
}

impl Source {
    /// Extracts the created source: the source exactly when the server
    /// reported no error.
    pub fn try_from(value: CreateSuggestionEngineSourceResponse) -> (r: Result<Source, Error>)
        ensures
            match value {
                CreateSuggestionEngineSourceResponse::Success { source } => r matches Ok(s) && s
                    == source,
                CreateSuggestionEngineSourceResponse::Failure { error } => r matches Err(e)
                    && e@.kind == ErrorKind::Other,
            },
    {
        match value {
            CreateSuggestionEngineSourceResponse::Success { source } => Ok(source),
            CreateSuggestionEngineSourceResponse::Failure { error } => Err(server_error(error)),
        }
    }
}

/// The wire response of a topic-group lookup.
#[derive(Debug)]
pub enum GetTopicGroupResponse {
    Success { topic_group: TopicGroup },
    Failure { error: String },
}

impl TopicGroup {
    /// Extracts the topic group: the group exactly when the server reported
    /// no error.
    pub fn try_from(value: GetTopicGroupResponse) -> (r: Result<TopicGroup, Error>)
        ensures
            match value {
                GetTopicGroupResponse::Success { topic_group } => r matches Ok(g) && g == topic_group,
                GetTopicGroupResponse::Failure { error } => r matches Err(e) && e@.kind
                    == ErrorKind::Other,
            },
    {
        match value {
            GetTopicGroupResponse::Success { topic_group } => Ok(topic_group),
            GetTopicGroupResponse::Failure { error } => Err(server_error(error)),
        }
    }
}

/// The wire response of a compilation lookup.
#[derive(Debug)]
pub enum GetCompilationResponse {
    Success { posts: Vec<Post> },
    Failure { error: String },
}

impl GetCompilationResponse {
    /// Extracts the posts: the list exactly when the server reported no
    /// error.
    pub fn into_posts(self) -> (r: Result<Vec<Post>, Error>)
        ensures
            match self {
                GetCompilationResponse::Success { posts } => r matches Ok(p) && p == posts,
                GetCompilationResponse::Failure { error } => r matches Err(e) && e@.kind
                    == ErrorKind::Other,
            },
    {
        match self {
            GetCompilationResponse::Success { posts } => Ok(posts),
            GetCompilationResponse::Failure { error } => Err(server_error(error)),
        }
    }
}


} // verus!
