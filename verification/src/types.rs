//! The data types returned by the API.

use std::collections::BTreeSet;
use std::collections::HashMap;
use vstd::prelude::*;

verus! {

/// A user profile.
#[derive(Debug)]
pub struct User {
    pub id: u64,
    pub name: String,
    pub short_name: String,
    pub url: String,
    pub bio: Option<String>,
    pub small_avatar_url: String,
    pub medium_avatar_url: String,
    pub avatar_url: String,
    pub large_avatar_url: String,
    pub curated_topics: Option<Vec<Topic>>,
    pub followed_topics: Option<Vec<Topic>>,
    pub premium_features: Option<BTreeSet<String>>,
}

/// A curated topic.
#[derive(Debug)]
pub struct Topic {
    pub id: u64,
    pub small_image_url: String,
    pub medium_image_url: String,
    pub image_url: String,
    pub large_image_url: String,
    pub description: Option<String>,
    pub name: String,
    pub short_name: String,
    pub url: String,
    pub lang: String,
    pub curated_post_count: u64,
    pub creator: Option<Box<User>>,
    pub pinned_post: Option<Post>,
    pub curated_posts: Option<Vec<Post>>,
    pub tags: Option<Vec<TopicTag>>,
    pub stats: Option<Stats>,
}

/// A tag on a topic and how many posts carry it.
#[derive(Debug, Clone)]
pub struct TopicTag {
    pub tag: String,
    pub post_count: u32,
}

/// Visit statistics of a topic.
#[derive(Debug, Clone)]
pub struct Stats {
    pub uv: i32,
    pub uvp: i32,
    pub v: i32,
    pub vp: i32,
}

/// A curated post.
#[derive(Debug)]
pub struct Post {
    pub id: i64,
    pub content: String,
    pub html_content: String,
    pub html_fragment: Option<String>,
    pub insight: Option<String>,
    pub html_insight: Option<String>,
    pub title: String,
    pub thanks_count: u32,
    pub reactions_count: u32,
    pub url: Option<String>,
    pub scoop_url: String,
    pub scoop_short_url: String,
    pub small_image_url: Option<String>,
    pub medium_image_url: Option<String>,
    pub image_url: Option<String>,
    pub large_image_url: Option<String>,
    pub image_width: Option<u32>,
    pub image_height: Option<u32>,
    pub image_size: Option<String>,
    pub image_position: Option<String>,
    pub tags: Option<Vec<String>>,
    pub comments_count: u32,
    pub page_views: Option<u32>,
    pub page_clicks: Option<u32>,
    pub author: Option<User>,
    pub is_user_suggestion: bool,
    pub suggested_by: Option<User>,
    pub twitter_author: Option<String>,
    pub publication_date: Option<i64>,
    pub curation_date: i64,
    pub topic_id: u64,
    pub topic: Option<Box<Topic>>,
    pub metadata: Option<HashMap<String, String>>,
}

/// The outcome of a search: whichever of the three collections the query
/// asked for, plus the total hit count.
#[derive(Debug)]
pub struct SearchResults {
    pub users: Option<Vec<User>>,
    pub topics: Option<Vec<Topic>>,
    pub posts: Option<Vec<Post>>,
    pub total_found: i32,
}

/// A named list of e-mail recipients.
#[derive(Debug, Clone)]
pub struct RecipientsList {
    pub id: i64,
    pub name: String,
    pub emails: Vec<String>,
}

/// The flavour of a suggestion engine.
#[derive(Debug, Clone, Copy, PartialEq, Eq, Structural)]
pub enum SuggestionEngineType {
    ResearchContent,
    ContentMonitoring,
    Topic,
}

/// A suggestion engine.
#[derive(Debug, Clone)]
pub struct SuggestionEngine {
    pub id: i64,
    pub engine_type: SuggestionEngineType,
    pub name: String,
    pub saved_searches: Option<Vec<SuggestionEngineSavedSearch>>,
}

/// A saved search belonging to a suggestion engine.
#[derive(Debug, Clone)]
pub struct SuggestionEngineSavedSearch {
    pub id: i64,
    pub name: String,
}

/// The kind-specific data of a suggestion engine source.  URLs are carried
/// as plain strings.
#[derive(Debug, Clone)]
pub enum SourceTypeData {
    AdvancedSearch { query: String },
    Webpage { webpage_url: String },
    Rss { rss_url: String },
    TwitterSearch { twitter_search_query: String },
    TwitterList { twitter_list_name: String, twitter_list_owner: String },
    TwitterFollowUser { twitter_user: String },
    /// Search is encoded in the url of the source.
    YoutubeSearch,
    /// The url of the source is the facebook page.
    FacebookPage,
    ScoopitUser,
    /// A topic.
    ScoopitTheme,
}

/// A suggestion engine source.  URLs are carried as plain strings: for
/// user and theme sources the url is relative to the site root, so no
/// stronger shape can be enforced.
#[derive(Debug, Clone)]
pub struct Source {
    pub id: i64,
    pub name: String,
    pub description: String,
    pub icon_url: String,
    pub url: Option<String>,
    pub source_type_data: SourceTypeData,
}

/// A group of topics.
#[derive(Debug)]
pub struct TopicGroup {
    pub id: i64,
    pub name: String,
    pub url_name: String,
    pub user_editable: bool,
    pub topics: Vec<Topic>,
}

} // verus!
