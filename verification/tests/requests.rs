use scoopit_api::types::SourceTypeData;
use scoopit_api::{
    CreateSuggestionEngineSourceRequest, DeleteSuggestionEngineSourceRequest,
    GetCompilationRequest, GetCompilationSort, GetProfileRequest, GetSuggestionEngineSourcesRequest,
    GetTopicGroupRequest, GetTopicOrder, GetTopicRequest, HttpMethod, SearchRequest,
    SearchRequestType, UpdateSuggestionEngineSourceRequest,
};

#[test]
fn test_source_requests_serialization() {
    let get_source = GetSuggestionEngineSourcesRequest {
        suggestion_engine_id: 123,
    };
    assert_eq!("", get_source.query_string());

    let delete_source = DeleteSuggestionEngineSourceRequest {
        suggestion_engine_id: 123,
        source_id: 456,
    };
    assert_eq!("se/123/sources/456", delete_source.endpoint());
    assert_eq!("", String::from_utf8_lossy(&delete_source.body()));

    let update_source = UpdateSuggestionEngineSourceRequest {
        suggestion_engine_id: 123,
        source_id: 456,
        name: None,
    };
    assert_eq!("se/123/sources/456", update_source.endpoint());
    assert_eq!("", String::from_utf8_lossy(&update_source.body()));

    let update_source = UpdateSuggestionEngineSourceRequest {
        suggestion_engine_id: 123,
        source_id: 456,
        name: Some("foobar".into()),
    };
    assert_eq!("se/123/sources/456", update_source.endpoint());
    assert_eq!("name=foobar", String::from_utf8_lossy(&update_source.body()));

    let create_twitter_source = CreateSuggestionEngineSourceRequest {
        suggestion_engine_id: 123,
        name: None,
        source_data: SourceTypeData::TwitterFollowUser {
            twitter_user: "bluxte".into(),
        },
    };
    assert_eq!("se/123/sources", create_twitter_source.endpoint());
    assert_eq!(
        "type=twitter_follow_user&twitterUser=bluxte",
        String::from_utf8_lossy(&create_twitter_source.body())
    );
}

#[test]
fn profile_request_default_query() {
    let q = GetProfileRequest::default().query_string();
    assert_eq!(
        q,
        "getStats=false&getTags=false&curated=0&curable=0&ncomments=0&\
         getFollowedTopics=false&getCuratedTopics=true&getCreator=false"
    );
}

#[test]
fn profile_request_encodes_short_name() {
    let req = GetProfileRequest {
        short_name: Some("pg assmann&co".to_string()),
        ..Default::default()
    };
    let q = req.query_string();
    assert!(q.starts_with("shortName=pg+assmann%26co&getStats=false"));
    assert_eq!(req.endpoint(), "profile");
}

#[test]
fn topic_request_query_with_tags() {
    let req = GetTopicRequest {
        url_name: Some("best-of-photojournalism".to_string()),
        order: Some(GetTopicOrder::Tag),
        tag: Some(vec!["afghanistan".to_string(), "war zone".to_string()]),
        ..Default::default()
    };
    assert_eq!(
        req.query_string(),
        "urlName=best-of-photojournalism&curated=30&curable=0&order=tag&\
         tag=afghanistan&tag=war+zone&ncomments=100&showScheduled=false"
    );
    assert_eq!(req.endpoint(), "topic");
}

#[test]
fn topic_order_wire_names() {
    assert_eq!(GetTopicOrder::Tag.query_value(), "tag");
    assert_eq!(GetTopicOrder::Search.query_value(), "search");
    assert_eq!(GetTopicOrder::CurationDate.query_value(), "curationDate");
    assert_eq!(GetTopicOrder::User.query_value(), "user");
}

#[test]
fn search_request_default_query() {
    let req = SearchRequest {
        query: "test".to_string(),
        count: Some(3),
        ..Default::default()
    };
    assert_eq!(
        req.query_string(),
        "type=post&query=test&count=3&getTags=false&getCreator=true&\
         getStats=false&getTagsForTopic=false&getStatsForTopic=false"
    );
    assert_eq!(req.endpoint(), "search");
}

#[test]
fn search_request_type_round_trip() {
    for (name, t) in [
        ("user", SearchRequestType::User),
        ("topic", SearchRequestType::Topic),
        ("post", SearchRequestType::Post),
    ] {
        assert_eq!(t.query_value(), name);
        assert_eq!(SearchRequestType::from_str(name).unwrap(), t);
    }
    let e = SearchRequestType::from_str("posts").unwrap_err();
    assert_eq!(e.message(), "Invalid request type: posts");
}

#[test]
fn topic_group_request_query() {
    let req = GetTopicGroupRequest {
        url_name: "my group".to_string(),
        company_id: Some(-7),
    };
    assert_eq!(req.query_string(), "urlName=my+group&companyId=-7");
    assert_eq!(req.endpoint(), "topic-group");
}

#[test]
fn compilation_request_query() {
    let req = GetCompilationRequest {
        sort: Some(GetCompilationSort::Timeline),
        topic_ids: Some(vec![5, -3]),
        count: Some(10),
        get_tags: Some(true),
        ..Default::default()
    };
    assert_eq!(
        req.query_string(),
        "sort=timeline&topicIds=5&topicIds=-3&count=10&getTags=true"
    );
    assert_eq!(req.endpoint(), "compilation");
    assert_eq!(GetCompilationSort::Rss.query_value(), "rss");
}

#[test]
fn empty_compilation_request_query() {
    assert_eq!(GetCompilationRequest::default().query_string(), "");
}

#[test]
fn update_request_methods() {
    let delete = DeleteSuggestionEngineSourceRequest {
        suggestion_engine_id: 1,
        source_id: 2,
    };
    assert_eq!(delete.method(), HttpMethod::Delete);
    let update = UpdateSuggestionEngineSourceRequest {
        suggestion_engine_id: 1,
        source_id: 2,
        name: None,
    };
    assert_eq!(update.method(), HttpMethod::Post);
    let create = CreateSuggestionEngineSourceRequest {
        suggestion_engine_id: 1,
        name: None,
        source_data: SourceTypeData::YoutubeSearch,
    };
    assert_eq!(create.method(), HttpMethod::Put);
}

#[test]
fn negative_engine_id_in_endpoint() {
    let req = GetSuggestionEngineSourcesRequest {
        suggestion_engine_id: -5,
    };
    assert_eq!(req.endpoint(), "se/-5/sources");
}

#[test]
fn create_source_bodies_by_variant() {
    let mk = |source_data| CreateSuggestionEngineSourceRequest {
        suggestion_engine_id: 9,
        name: Some("my source".to_string()),
        source_data,
    };
    let body = |d| String::from_utf8_lossy(&mk(d).body()).into_owned();
    assert_eq!(
        body(SourceTypeData::AdvancedSearch {
            query: "a&b".to_string()
        }),
        "name=my+source&type=advanced_search&query=a%26b"
    );
    assert_eq!(
        body(SourceTypeData::Webpage {
            webpage_url: "https://example.com/x?y=1".to_string()
        }),
        "name=my+source&type=webpage&webpageUrl=https%3A%2F%2Fexample.com%2Fx%3Fy%3D1"
    );
    assert_eq!(
        body(SourceTypeData::Rss {
            rss_url: "https://example.com/feed".to_string()
        }),
        "name=my+source&type=rss&rssUrl=https%3A%2F%2Fexample.com%2Ffeed"
    );
    assert_eq!(
        body(SourceTypeData::TwitterSearch {
            twitter_search_query: "#tag".to_string()
        }),
        "name=my+source&type=twitter_search&twitterSearchQuery=%23tag"
    );
    assert_eq!(
        body(SourceTypeData::TwitterList {
            twitter_list_name: "list".to_string(),
            twitter_list_owner: "owner".to_string()
        }),
        "name=my+source&type=twitter_list&twitterListName=list&twitterListOwner=owner"
    );
    assert_eq!(body(SourceTypeData::FacebookPage), "name=my+source&type=facebook_page");
    assert_eq!(body(SourceTypeData::ScoopitUser), "name=my+source&type=scoopit_user");
    assert_eq!(body(SourceTypeData::ScoopitTheme), "name=my+source&type=scoopit_theme");
    assert_eq!(body(SourceTypeData::YoutubeSearch), "name=my+source&type=youtube_search");
}
