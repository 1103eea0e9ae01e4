use scoopit_api::types::{
    RecipientsList, Source, SourceTypeData, Stats, SuggestionEngine, SuggestionEngineType, Topic,
    TopicGroup, TopicTag, User,
};
use scoopit_api::{
    CreateSuggestionEngineSourceResponse, EmptyUpdateResponse, GetCompilationResponse,
    GetRecipientsListResponse, GetSuggestionEngineSourcesResponse, GetSuggestionEnginesResponse,
    GetTopicGroupResponse, LoginAccessToken, LoginResponse, SearchResponse, TestResponse,
    TopicResponse, UserResponse,
};

fn sample_user() -> User {
    User {
        id: 1,
        name: "Jo".to_string(),
        short_name: "jo".to_string(),
        url: "https://example.com/jo".to_string(),
        bio: None,
        small_avatar_url: String::new(),
        medium_avatar_url: String::new(),
        avatar_url: String::new(),
        large_avatar_url: String::new(),
        curated_topics: None,
        followed_topics: None,
        premium_features: None,
    }
}

fn sample_topic() -> Topic {
    Topic {
        id: 7,
        small_image_url: String::new(),
        medium_image_url: String::new(),
        image_url: String::new(),
        large_image_url: String::new(),
        description: None,
        name: "Topic".to_string(),
        short_name: "topic".to_string(),
        url: String::new(),
        lang: "en".to_string(),
        curated_post_count: 0,
        creator: None,
        pinned_post: None,
        curated_posts: None,
        tags: Some(vec![TopicTag {
            tag: "t".to_string(),
            post_count: 1,
        }]),
        stats: Some(Stats {
            uv: 1,
            uvp: 2,
            v: 3,
            vp: 4,
        }),
    }
}

#[test]
fn user_response_conversions() {
    let u = User::try_from(UserResponse {
        user: Some(sample_user()),
        error: None,
    })
    .unwrap();
    assert_eq!(u.short_name, "jo");

    let e = User::try_from(UserResponse {
        user: Some(sample_user()),
        error: Some("boom".to_string()),
    })
    .unwrap_err();
    assert_eq!(e.message(), "Server returned an error: boom");

    let e = User::try_from(UserResponse {
        user: None,
        error: None,
    })
    .unwrap_err();
    assert_eq!(e.message(), "No user nor error in response body!");
}

#[test]
fn topic_response_conversions() {
    let t = Topic::try_from(TopicResponse {
        topic: Some(sample_topic()),
        error: None,
    })
    .unwrap();
    assert_eq!(t.id, 7);

    let e = Topic::try_from(TopicResponse {
        topic: None,
        error: Some("nope".to_string()),
    })
    .unwrap_err();
    assert_eq!(e.message(), "Server returned an error: nope");
}

#[test]
fn search_response_repacks() {
    let r = SearchResponse {
        users: Some(vec![sample_user()]),
        topics: None,
        posts: None,
        total_found: 42,
    };
    let results = scoopit_api::types::SearchResults::try_from(r).unwrap();
    assert_eq!(results.total_found, 42);
    assert_eq!(results.users.unwrap().len(), 1);
    assert!(results.topics.is_none());
}

#[test]
fn recipients_list_response_unwraps() {
    let r = GetRecipientsListResponse {
        list: vec![RecipientsList {
            id: 1,
            name: "ops".to_string(),
            emails: vec!["a@example.com".to_string()],
        }],
    };
    let list = r.into_list();
    assert_eq!(list.len(), 1);
    assert_eq!(list[0].name, "ops");
}

#[test]
fn test_response_conversions() {
    let ok = TestResponse {
        connected_user: Some("jo".to_string()),
        error: None,
    };
    assert_eq!(ok.into_connected_user().unwrap(), Some("jo".to_string()));

    let anonymous = TestResponse {
        connected_user: None,
        error: None,
    };
    assert_eq!(anonymous.into_connected_user().unwrap(), None);

    let failed = TestResponse {
        connected_user: None,
        error: Some("bad token".to_string()),
    };
    let e = failed.into_connected_user().unwrap_err();
    assert_eq!(e.message(), "Server returned an error: bad token");
}

#[test]
fn login_response_conversions() {
    let token = LoginAccessToken {
        oauth_token: "t".to_string(),
        oauth_token_secret: "s".to_string(),
    };
    let got = LoginAccessToken::try_from(LoginResponse::Success {
        access_token: token,
    })
    .unwrap();
    assert_eq!(got.oauth_token, "t");

    let e = LoginAccessToken::try_from(LoginResponse::Failure {
        errors: vec!["bad email".to_string(), "bad password".to_string()],
    })
    .unwrap_err();
    assert_eq!(e.message(), "Unable to login with errors: bad email, bad password");
}

#[test]
fn suggestion_engines_response_conversions() {
    let engines = vec![SuggestionEngine {
        id: 3,
        engine_type: SuggestionEngineType::Topic,
        name: "engine".to_string(),
        saved_searches: None,
    }];
    let got = GetSuggestionEnginesResponse::Success {
        suggestion_engines: engines,
    }
    .into_engines()
    .unwrap();
    assert_eq!(got.len(), 1);

    let e = GetSuggestionEnginesResponse::Failure {
        error: "denied".to_string(),
    }
    .into_engines()
    .unwrap_err();
    assert_eq!(e.message(), "Server returned an error: denied");
}

#[test]
fn test_update_resp() {
    let ok = EmptyUpdateResponse::Success {};
    assert!(ok.is_ok());
    assert!(!ok.is_err());
    assert!(ok.into_result().is_ok());

    let failed = EmptyUpdateResponse::Failure {
        error: "broken".to_string(),
    };
    assert!(failed.is_err());
    assert!(!failed.is_ok());
    let e = failed.into_result().unwrap_err();
    assert_eq!(e.message(), "Server returned an error: broken");
}

#[test]
fn topic_group_response_conversions() {
    let group = TopicGroup {
        id: 1,
        name: "g".to_string(),
        url_name: "g".to_string(),
        user_editable: true,
        topics: vec![sample_topic()],
    };
    let got = TopicGroup::try_from(GetTopicGroupResponse::Success { topic_group: group }).unwrap();
    assert_eq!(got.topics.len(), 1);

    let e = TopicGroup::try_from(GetTopicGroupResponse::Failure {
        error: "gone".to_string(),
    })
    .unwrap_err();
    assert_eq!(e.message(), "Server returned an error: gone");
}

#[test]
fn compilation_response_conversions() {
    let got = GetCompilationResponse::Success { posts: vec![] }
        .into_posts()
        .unwrap();
    assert!(got.is_empty());

    let e = GetCompilationResponse::Failure {
        error: "empty".to_string(),
    }
    .into_posts()
    .unwrap_err();
    assert_eq!(e.message(), "Server returned an error: empty");
}

#[test]
fn source_response_conversions() {
    let source = Source {
        id: 4,
        name: "feed".to_string(),
        description: String::new(),
        icon_url: "https://example.com/icon.png".to_string(),
        url: None,
        source_type_data: SourceTypeData::Rss {
            rss_url: "https://example.com/rss".to_string(),
        },
    };
    let created =
        Source::try_from(CreateSuggestionEngineSourceResponse::Success { source }).unwrap();
    assert_eq!(created.id, 4);

    let e = Source::try_from(CreateSuggestionEngineSourceResponse::Failure {
        error: "nope".to_string(),
    })
    .unwrap_err();
    assert_eq!(e.message(), "Server returned an error: nope");

    let listed = GetSuggestionEngineSourcesResponse::Success {
        sources: vec![created],
    }
    .into_sources()
    .unwrap();
    assert_eq!(listed.len(), 1);

    let e = GetSuggestionEngineSourcesResponse::Failure {
        error: "gone".to_string(),
    }
    .into_sources()
    .unwrap_err();
    assert_eq!(e.message(), "Server returned an error: gone");
}
