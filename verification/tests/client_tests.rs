use booru_rs::client::generic::Sort;
use booru_rs::client::{
    first_post, Client, ClientBuilder, DanbooruClient, Decode, GelbooruClient, Request,
    Rule34Client, SafebooruClient,
};
use booru_rs::danbooru::DanbooruRating;
use booru_rs::error::BooruError;
use booru_rs::gelbooru::GelbooruRating;
use booru_rs::model::Post;
use booru_rs::rule34::Rule34Rating;
use booru_rs::safebooru::{SafebooruPost, SafebooruRating};

#[test]
fn danbooru_tests_parse_rating_tags() {
    assert_eq!("explicit", DanbooruRating::Explicit.to_string());
    assert_eq!("questionable", DanbooruRating::Questionable.to_string());
    assert_eq!("sensitive", DanbooruRating::Sensitive.to_string());
    assert_eq!("general", DanbooruRating::General.to_string());
}

#[test]
fn danbooru_tests_parse_sort_tags() {
    assert_eq!("id", Sort::Id.to_string());
    assert_eq!("score", Sort::Score.to_string());
    assert_eq!("rating", Sort::Rating.to_string());
    assert_eq!("user", Sort::User.to_string());
    assert_eq!("height", Sort::Height.to_string());
    assert_eq!("width", Sort::Width.to_string());
    assert_eq!("source", Sort::Source.to_string());
    assert_eq!("updated", Sort::Updated.to_string());
}

#[test]
fn gelbooru_tests_parse_rating_tags() {
    assert_eq!("explicit", GelbooruRating::Explicit.to_string());
    assert_eq!("questionable", GelbooruRating::Questionable.to_string());
    assert_eq!("safe", GelbooruRating::Safe.to_string());
    assert_eq!("sensitive", GelbooruRating::Sensitive.to_string());
    assert_eq!("general", GelbooruRating::General.to_string());
}

#[test]
fn gelbooru_tests_parse_sort_tags() {
    assert_eq!("id", Sort::Id.to_string());
    assert_eq!("score", Sort::Score.to_string());
    assert_eq!("rating", Sort::Rating.to_string());
    assert_eq!("user", Sort::User.to_string());
    assert_eq!("height", Sort::Height.to_string());
    assert_eq!("width", Sort::Width.to_string());
    assert_eq!("source", Sort::Source.to_string());
    assert_eq!("updated", Sort::Updated.to_string());
}

#[test]
fn rule34_tests_parse_rating_tags() {
    assert_eq!(Rule34Rating::Explicit.to_string(), "explicit");
    assert_eq!(Rule34Rating::Safe.to_string(), "safe");
    assert_eq!(Rule34Rating::Questionable.to_string(), "questionable");
}

#[test]
fn rule34_tests_parse_sort_tags() {
    assert_eq!(Sort::Id.to_string(), "id");
    assert_eq!(Sort::Score.to_string(), "score");
    assert_eq!(Sort::Rating.to_string(), "rating");
    assert_eq!(Sort::Updated.to_string(), "updated");
}

#[test]
fn safebooru_tests_parse_rating_tags() {
    assert_eq!("safe", SafebooruRating::Safe.to_string());
    assert_eq!("general", SafebooruRating::General.to_string());
    assert_eq!("questionable", SafebooruRating::Questionable.to_string());
    assert_eq!("explicit", SafebooruRating::Explicit.to_string());
}

#[test]
fn safebooru_tests_parse_sort_tags() {
    assert_eq!("id", Sort::Id.to_string());
    assert_eq!("score", Sort::Score.to_string());
    assert_eq!("rating", Sort::Rating.to_string());
    assert_eq!("user", Sort::User.to_string());
    assert_eq!("height", Sort::Height.to_string());
    assert_eq!("width", Sort::Width.to_string());
    assert_eq!("source", Sort::Source.to_string());
    assert_eq!("updated", Sort::Updated.to_string());
}

#[test]
fn remaining_names() {
    assert_eq!(Sort::Random.to_string(), "random");
    assert_eq!(Rule34Rating::General.to_string(), "general");
    assert_eq!(Rule34Rating::Sensitive.to_string(), "sensitive");
}

#[test]
fn test_tag_limit_exceeded() {
    // Danbooru has a 2-tag limit
    let result = DanbooruClient::builder().tags(&["tag1", "tag2", "tag3"]);

    assert!(result.is_err());
    let err = result.unwrap_err();
    assert!(matches!(
        err,
        BooruError::TagLimitExceeded {
            client: "DanbooruClient",
            max: 2,
            actual: 3
        }
    ));
}

#[test]
fn the_tag_after_the_last_allowed_one_fails() {
    let full = DanbooruClient::builder().tag("a").unwrap().tag("b").unwrap();
    assert_eq!(full.tag_count(), 2);
    let kept = full.clone();
    match full.tag("c") {
        Err(BooruError::TagLimitExceeded { client, max, actual }) => {
            assert_eq!(client, "DanbooruClient");
            assert_eq!(max, 2);
            assert_eq!(actual, 3);
        }
        other => panic!("unexpected result: {:?}", other),
    }
    // The builder that was held before the failing call is as it was.
    assert_eq!(kept.tag_count(), 2);
    assert_eq!(kept.build().query().tags, vec!["a".to_string(), "b".to_string()]);
}

#[test]
fn synthesized_tags_take_places_of_the_limit() {
    let builder = DanbooruClient::builder()
        .rating(DanbooruRating::General)
        .unwrap()
        .sort(Sort::Score)
        .unwrap();
    assert_eq!(builder.tag_count(), 2);
    match builder.tag("cat_ears") {
        Err(BooruError::TagLimitExceeded { max, actual, .. }) => {
            assert_eq!(max, 2);
            assert_eq!(actual, 3);
        }
        other => panic!("unexpected result: {:?}", other),
    }
}

fn full() -> ClientBuilder<DanbooruClient> {
    DanbooruClient::builder().tag("a").unwrap().tag("b").unwrap()
}

fn assert_limit<T: std::fmt::Debug>(result: Result<T, BooruError>) {
    match result {
        Err(BooruError::TagLimitExceeded { client, max, actual }) => {
            assert_eq!(client, "DanbooruClient");
            assert_eq!(max, 2);
            assert_eq!(actual, 3);
        }
        other => panic!("unexpected result: {:?}", other),
    }
}

#[test]
fn synthesized_tags_fail_at_the_limit() {
    assert_limit(full().rating(DanbooruRating::General));
    assert_limit(full().sort(Sort::Score));
    assert_limit(full().random());
    assert_limit(full().blacklist_tag("c"));
    assert_limit(full().blacklist_tags(&["c"]));
    assert_limit(full().tag("c"));
    assert_limit(full().tags(&["c", "d"]));
    // The builder that was held before the failing call is as it was.
    let kept = full();
    assert_limit(kept.clone().rating(DanbooruRating::General));
    assert_eq!(kept.tag_count(), 2);
    // Nothing that does not add a tag fails.
    let still = full().limit(5).page(2).set_credentials("k", "u").with_custom_url("http://x");
    assert_eq!(still.tag_count(), 2);
    assert!(full().tags(&[]).is_ok());
    assert!(full().blacklist_tags(&[]).is_ok());
}

#[test]
fn no_builder_holds_more_tags_than_its_site_allows() {
    let one = DanbooruClient::builder().tag("a").unwrap();
    assert_eq!(one.clone().sort(Sort::Id).unwrap().tag_count(), 2);
    assert_limit(one.clone().blacklist_tags(&["b", "c"]));
    assert_limit(one.clone().random().unwrap().rating(DanbooruRating::Explicit));
    assert_eq!(one.blacklist_tags(&["b"]).unwrap().tag_count(), 2);
}

#[test]
fn sites_without_limit_take_any_number_of_tags() {
    let mut builder = GelbooruClient::builder();
    for i in 0..50 {
        builder = builder.tag(&format!("tag{}", i)).unwrap();
    }
    assert_eq!(builder.tag_count(), 50);
    assert!(SafebooruClient::builder().tags(&["a", "b", "c", "d"]).is_ok());
    assert!(Rule34Client::builder().tags(&["a", "b", "c", "d"]).is_ok());
}

#[test]
fn tags_reports_the_first_tag_that_does_not_fit() {
    let one = DanbooruClient::builder().tag("a").unwrap();
    assert!(one.clone().tags(&[]).is_ok());
    assert_eq!(one.clone().tags(&["b"]).unwrap().tag_count(), 2);
    assert!(matches!(
        one.tags(&["b", "c", "d"]),
        Err(BooruError::TagLimitExceeded { max: 2, actual: 3, .. })
    ));
    let full = DanbooruClient::builder().tags(&["a", "b"]).unwrap();
    assert!(full.clone().tags(&[]).is_ok());
    assert!(matches!(
        full.tags(&["c"]),
        Err(BooruError::TagLimitExceeded { max: 2, actual: 3, .. })
    ));
}

#[test]
fn new_builder_has_the_defaults() {
    let builder: ClientBuilder<DanbooruClient> = ClientBuilder::new();
    assert_eq!(builder.tag_count(), 0);
    assert!(!builder.has_tags());
    assert_eq!(builder.current_page(), 0);
    let client = builder.build();
    let query = client.query();
    assert_eq!(query.key, None);
    assert_eq!(query.user, None);
    assert!(query.tags.is_empty());
    assert_eq!(query.limit, 100);
    assert_eq!(query.url, "https://danbooru.donmai.us");
    assert_eq!(query.page, 0);
    let default: ClientBuilder<GelbooruClient> = ClientBuilder::default();
    assert_eq!(default.build().query().url, "https://gelbooru.com");
    assert_eq!(Rule34Client::builder().build().query().url, "https://api.rule34.xxx");
    assert_eq!(SafebooruClient::builder().build().query().url, "https://safebooru.org");
}

#[test]
fn capabilities() {
    assert_eq!(DanbooruClient::url(), "https://danbooru.donmai.us");
    assert_eq!(DanbooruClient::sort_prefix(), "order:");
    assert_eq!(DanbooruClient::max_tags(), Some(2));
    assert_eq!(DanbooruClient::name(), "DanbooruClient");
    assert_eq!(GelbooruClient::url(), "https://gelbooru.com");
    assert_eq!(GelbooruClient::sort_prefix(), "sort:");
    assert_eq!(GelbooruClient::max_tags(), None);
    assert_eq!(GelbooruClient::name(), "GelbooruClient");
    assert_eq!(SafebooruClient::url(), "https://safebooru.org");
    assert_eq!(SafebooruClient::sort_prefix(), "sort:");
    assert_eq!(SafebooruClient::max_tags(), None);
    assert_eq!(SafebooruClient::name(), "SafebooruClient");
    assert_eq!(Rule34Client::url(), "https://api.rule34.xxx");
    assert_eq!(Rule34Client::sort_prefix(), "sort:");
    assert_eq!(Rule34Client::max_tags(), None);
    assert_eq!(Rule34Client::name(), "Rule34Client");
    assert_eq!(DanbooruClient::rating_name(DanbooruRating::Sensitive), "sensitive");
    assert_eq!(GelbooruClient::rating_name(GelbooruRating::Safe), "safe");
}

#[test]
fn builder_sets_every_field() {
    let client = GelbooruClient::builder()
        .tag("cat_ears")
        .unwrap()
        .rating(GelbooruRating::General)
        .unwrap()
        .sort(Sort::Score)
        .unwrap()
        .random()
        .unwrap()
        .blacklist_tag("dog")
        .unwrap()
        .blacklist_tags(&["ugly", "low_quality"])
        .unwrap()
        .limit(10)
        .page(3)
        .set_credentials("key", "user")
        .with_custom_url("http://localhost:1234")
        .build();
    let query = client.query();
    assert_eq!(
        query.tags,
        vec![
            "cat_ears".to_string(),
            "rating:general".to_string(),
            "sort:score".to_string(),
            "sort:random".to_string(),
            "-dog".to_string(),
            "-ugly".to_string(),
            "-low_quality".to_string(),
        ]
    );
    assert_eq!(query.limit, 10);
    assert_eq!(query.page, 3);
    assert_eq!(query.key, Some("key".to_string()));
    assert_eq!(query.user, Some("user".to_string()));
    assert_eq!(query.url, "http://localhost:1234");
    let danbooru = DanbooruClient::builder()
        .sort(Sort::Rating)
        .unwrap()
        .random()
        .unwrap()
        .default_url("http://x");
    assert!(danbooru.has_tags());
    let client = danbooru.build();
    assert_eq!(client.query().tags, vec!["order:rating".to_string(), "order:random".to_string()]);
    assert_eq!(client.query().url, "http://x");
}

#[test]
fn duplicate_tags_are_kept_in_order() {
    let client = SafebooruClient::builder().tags(&["b", "a", "b"]).unwrap().build();
    assert_eq!(client.query().tags, vec!["b".to_string(), "a".to_string(), "b".to_string()]);
}

fn pairs(list: &[(&str, &str)]) -> Vec<(String, String)> {
    list.iter().map(|(a, b)| (a.to_string(), b.to_string())).collect()
}

#[test]
fn danbooru_requests() {
    let client = DanbooruClient::builder()
        .with_custom_url("http://mock")
        .tag("cat_ears")
        .unwrap()
        .rating(DanbooruRating::General)
        .unwrap()
        .limit(10)
        .page(2)
        .set_credentials("k", "u")
        .build();
    assert_eq!(
        client.page_request(),
        Request {
            url: "http://mock/posts.json".to_string(),
            query: pairs(&[("limit", "10"), ("page", "2"), ("tags", "cat_ears rating:general")]),
            headers: pairs(&[("User-Agent", "booru-rs/0.3.0")]),
        }
    );
    assert_eq!(
        client.post_request(7654321),
        Request {
            url: "http://mock/posts/7654321.json".to_string(),
            query: vec![],
            headers: pairs(&[("User-Agent", "booru-rs/0.3.0")]),
        }
    );
}

#[test]
fn gelbooru_requests_carry_credentials_when_both_are_set() {
    let with = GelbooruClient::builder()
        .with_custom_url("http://mock")
        .set_credentials("test_key", "test_user")
        .tag("cat_ears")
        .unwrap()
        .tag("1girl")
        .unwrap()
        .limit(10)
        .build();
    assert_eq!(
        with.page_request(),
        Request {
            url: "http://mock/index.php".to_string(),
            query: pairs(&[
                ("page", "dapi"),
                ("s", "post"),
                ("q", "index"),
                ("pid", "0"),
                ("limit", "10"),
                ("tags", "cat_ears 1girl"),
                ("json", "1"),
                ("api_key", "test_key"),
                ("user_id", "test_user"),
            ]),
            headers: vec![],
        }
    );
    assert_eq!(
        with.post_request(42).query,
        pairs(&[
            ("page", "dapi"),
            ("s", "post"),
            ("q", "index"),
            ("id", "42"),
            ("json", "1"),
            ("api_key", "test_key"),
            ("user_id", "test_user"),
        ])
    );
    let without = GelbooruClient::builder().build();
    assert_eq!(without.page_request().url, "https://gelbooru.com/index.php");
    assert_eq!(
        without.page_request().query,
        pairs(&[
            ("page", "dapi"),
            ("s", "post"),
            ("q", "index"),
            ("pid", "0"),
            ("limit", "100"),
            ("tags", ""),
            ("json", "1"),
        ])
    );
}

#[test]
fn rule34_requests_carry_credentials() {
    let client = Rule34Client::builder()
        .set_credentials("k", "u")
        .tag("1girl")
        .unwrap()
        .page(4)
        .build();
    let request = client.page_request();
    assert_eq!(request.url, "https://api.rule34.xxx/index.php");
    assert_eq!(
        request.query,
        pairs(&[
            ("page", "dapi"),
            ("s", "post"),
            ("q", "index"),
            ("pid", "4"),
            ("limit", "100"),
            ("tags", "1girl"),
            ("json", "1"),
            ("api_key", "k"),
            ("user_id", "u"),
        ])
    );
    assert_eq!(client.post_request(1).query.len(), 7);
}

#[test]
fn safebooru_requests_never_carry_credentials() {
    let client = SafebooruClient::builder()
        .set_credentials("k", "u")
        .tag("landscape")
        .unwrap()
        .limit(5)
        .page(9)
        .build();
    assert_eq!(
        client.page_request(),
        Request {
            url: "https://safebooru.org/index.php".to_string(),
            query: pairs(&[
                ("page", "dapi"),
                ("s", "post"),
                ("q", "index"),
                ("pid", "9"),
                ("limit", "5"),
                ("tags", "landscape"),
                ("json", "1"),
            ]),
            headers: vec![],
        }
    );
    assert_eq!(
        client.post_request(12345).query,
        pairs(&[("page", "dapi"), ("s", "post"), ("q", "index"), ("id", "12345"), ("json", "1")])
    );
}

#[test]
fn request_is_built_parameter_by_parameter() {
    let mut request = Request::new("http://h/p".to_string());
    assert!(request.query.is_empty());
    assert!(request.headers.is_empty());
    request.param("a", "1".to_string());
    request.header("H", "v".to_string());
    request.param("b", "2".to_string());
    assert_eq!(request.url, "http://h/p");
    assert_eq!(request.query, pairs(&[("a", "1"), ("b", "2")]));
    assert_eq!(request.headers, pairs(&[("H", "v")]));
}

fn safebooru_post(id: u32, score: Option<u32>, source: &str) -> SafebooruPost {
    SafebooruPost {
        id,
        score,
        height: 1080,
        width: 1920,
        hash: "abc123def456".to_string(),
        tags: "cat_ears blue_eyes".to_string(),
        image: "abc123.jpg".to_string(),
        directory: 1234,
        file_url: "https://example.com/images/1234/abc123.jpg".to_string(),
        preview_url: "https://example.com/thumbnails/1234/thumbnail_abc123.jpg".to_string(),
        sample_url: "https://example.com/samples/1234/sample_abc123.jpg".to_string(),
        source: source.to_string(),
        change: 1700000000,
        rating: SafebooruRating::General,
    }
}

#[test]
fn mock_tests_test_get_posts_success() {
    // A tagged query with a page size of 10 against a site at a mock URL.
    let client = SafebooruClient::builder()
        .with_custom_url("http://127.0.0.1:9999")
        .tag("cat_ears")
        .unwrap()
        .limit(10)
        .build();
    let request = client.page_request();
    assert_eq!(request.url, "http://127.0.0.1:9999/index.php");
    assert!(request.query.contains(&("page".to_string(), "dapi".to_string())));
    assert!(request.query.contains(&("s".to_string(), "post".to_string())));
    assert!(request.query.contains(&("q".to_string(), "index".to_string())));
    assert!(request.query.contains(&("json".to_string(), "1".to_string())));
    assert!(request.query.contains(&("limit".to_string(), "10".to_string())));
    assert!(request.query.contains(&("tags".to_string(), "cat_ears".to_string())));

    // The site answers with two posts: the body is to be read as a list.
    assert_eq!(
        SafebooruClient::page_response(200, "[{\"id\": 12345}, {\"id\": 12346}]"),
        Ok(Decode::List)
    );
    let posts = vec![
        safebooru_post(12345, Some(100), "https://twitter.com/artist/status/123"),
        safebooru_post(12346, Some(50), ""),
    ];
    assert_eq!(posts.len(), 2);
    assert_eq!(posts[0].id, 12345);
    assert_eq!(posts[0].hash, "abc123def456");
    assert_eq!(posts[1].id, 12346);
}

#[test]
fn mock_tests_test_get_post_by_id_success() {
    let client = SafebooruClient::builder().with_custom_url("http://127.0.0.1:9999").build();
    let request = client.post_request(12345);
    assert!(request.query.contains(&("id".to_string(), "12345".to_string())));
    assert_eq!(SafebooruClient::post_response(200, "[{\"id\": 12345}]"), Ok(Decode::List));
    let posts = vec![safebooru_post(12345, Some(100), ""), safebooru_post(12346, None, "")];
    let post = first_post(posts, 12345).unwrap();
    assert_eq!(post.id, 12345);
    assert_eq!(post.width, 1920);
    assert_eq!(post.height, 1080);
}

#[test]
fn test_get_post_not_found() {
    let client = SafebooruClient::builder().with_custom_url("http://127.0.0.1:9999").build();
    assert!(client.post_request(99999).query.contains(&("id".to_string(), "99999".to_string())));
    // Empty array means post not found
    assert_eq!(SafebooruClient::post_response(200, "[]"), Ok(Decode::List));
    let result = first_post(Vec::<SafebooruPost>::new(), 99999);
    assert!(result.is_err());
    assert!(matches!(result.unwrap_err(), BooruError::PostNotFound(99999)));
}

#[test]
fn first_post_is_the_first_of_many() {
    assert_eq!(first_post(vec![5, 6, 7], 1), Ok(5));
    assert_eq!(first_post(vec![9], 1), Ok(9));
    assert_eq!(first_post(Vec::<u8>::new(), 77), Err(BooruError::PostNotFound(77)));
}

#[test]
fn mock_tests_test_unauthorized_error() {
    // One site says it by status 401, the other by words in a body that comes
    // with status 200: both stand for the same kind of error.
    let by_status = GelbooruClient::page_response(401, "");
    let by_body = Rule34Client::page_response(200, "Missing authentication");
    assert!(matches!(by_status, Err(BooruError::Unauthorized { .. })));
    assert!(matches!(by_body, Err(BooruError::Unauthorized { .. })));
    assert_eq!(
        by_status,
        Err(BooruError::Unauthorized(
            "Gelbooru requires API credentials. Use set_credentials(api_key, user_id)"
                .to_string()
        ))
    );
    assert_eq!(
        by_body,
        Err(BooruError::Unauthorized(
            "Rule34 requires API credentials. Use set_credentials(api_key, user_id)".to_string()
        ))
    );
}

#[test]
fn rule34_finds_the_marker_anywhere_in_the_body() {
    let hint = "Rule34 requires API credentials. Use set_credentials(api_key, user_id)";
    for body in [
        "Missing authentication",
        "Missing authentication. Go to api.rule34.xxx for more information",
        "\"Missing authentication\"",
        "xMissing authenticationx",
        "Missing Missing authentication",
    ] {
        assert_eq!(
            Rule34Client::page_response(200, body),
            Err(BooruError::Unauthorized(hint.to_string())),
            "{:?}",
            body
        );
        assert_eq!(
            Rule34Client::post_response(200, body),
            Err(BooruError::Unauthorized(hint.to_string())),
            "{:?}",
            body
        );
    }
    for body in ["missing authentication", "Missing authenticatio", "Missing  authentication", "[]"] {
        assert!(Rule34Client::page_response(200, body).is_ok(), "{:?}", body);
    }
    assert_eq!(
        Rule34Client::page_response(401, "[]"),
        Err(BooruError::Unauthorized(hint.to_string()))
    );
    assert_eq!(
        Rule34Client::post_response(401, "[{\"id\": 1}]"),
        Err(BooruError::Unauthorized(hint.to_string()))
    );
}

#[test]
fn mock_tests_test_empty_response() {
    assert_eq!(Rule34Client::page_response(200, "[]"), Ok(Decode::Nothing));
    assert_eq!(Rule34Client::page_response(200, ""), Ok(Decode::Nothing));
    assert_eq!(Rule34Client::page_response(200, "[ ]"), Ok(Decode::List));
    assert_eq!(Rule34Client::page_response(200, "[{\"id\": 1}]"), Ok(Decode::List));
    assert_eq!(Rule34Client::post_response(200, "[]"), Ok(Decode::List));
    assert_eq!(Rule34Client::post_response(200, ""), Ok(Decode::List));
    assert_eq!(SafebooruClient::page_response(200, "[]"), Ok(Decode::List));
    assert_eq!(
        GelbooruClient::page_response(200, "{\"@attributes\": {\"count\": 0}, \"post\": []}"),
        Ok(Decode::Envelope)
    );
}

#[test]
fn statuses_other_than_401_leave_the_body_to_be_read() {
    assert_eq!(SafebooruClient::page_response(500, "Internal Server Error"), Ok(Decode::List));
    assert_eq!(SafebooruClient::page_response(401, ""), Ok(Decode::List));
    assert_eq!(DanbooruClient::page_response(200, "[]"), Ok(Decode::List));
    assert_eq!(DanbooruClient::page_response(401, ""), Ok(Decode::List));
    assert_eq!(DanbooruClient::post_response(200, "{}"), Ok(Decode::Single));
    assert_eq!(DanbooruClient::post_response(404, "{\"success\":false}"), Ok(Decode::Single));
    assert_eq!(GelbooruClient::page_response(500, ""), Ok(Decode::Envelope));
    assert_eq!(GelbooruClient::post_response(200, ""), Ok(Decode::Envelope));
    assert!(matches!(
        GelbooruClient::post_response(401, "{}"),
        Err(BooruError::Unauthorized(_))
    ));
    assert_eq!(Rule34Client::page_response(500, "oops"), Ok(Decode::List));
}

#[test]
fn mock_tests_test_post_trait_methods() {
    let post = safebooru_post(12345, Some(100), "https://twitter.com/artist/status/123");
    assert_eq!(post.id(), 12345);
    assert_eq!(post.width(), 1920);
    assert_eq!(post.height(), 1080);
    assert_eq!(post.file_url(), Some("https://example.com/images/1234/abc123.jpg"));
    assert_eq!(post.tags(), "cat_ears blue_eyes");
    assert_eq!(post.score(), Some(100));
    assert_eq!(post.md5(), Some("abc123def456"));
    assert_eq!(post.source(), Some("https://twitter.com/artist/status/123"));
}

#[test]
fn test_post_trait_empty_source() {
    let post = safebooru_post(12346, Some(50), "");
    // Empty source should return None
    assert_eq!(post.source(), None);
}

#[test]
fn scores_keep_their_bits() {
    assert_eq!(safebooru_post(1, None, "").score(), None);
    assert_eq!(safebooru_post(1, Some(0), "").score(), Some(0));
    assert_eq!(safebooru_post(1, Some(i32::MAX as u32), "").score(), Some(i32::MAX));
    assert_eq!(safebooru_post(1, Some(i32::MAX as u32 + 1), "").score(), Some(i32::MIN));
    assert_eq!(safebooru_post(1, Some(u32::MAX), "").score(), Some(-1));
}
