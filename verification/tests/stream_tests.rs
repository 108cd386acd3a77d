use booru_rs::client::{Client, SafebooruClient};
use booru_rs::error::BooruError;
use booru_rs::stream::{collect_step, Buffered, PageStream, PostStream};

fn page(first: u32, count: u32) -> Vec<u32> {
    (first..first + count).collect()
}

/// Runs one step of a page stream against a backend that answers each page
/// number with what `backend` returns, and counts the fetches.
fn next_page(
    stream: &mut PageStream<SafebooruClient>,
    fetches: &mut Vec<u32>,
    backend: &dyn Fn(u32) -> Result<Vec<u32>, BooruError>,
) -> Option<Result<Vec<u32>, BooruError>> {
    let client = stream.start_next()?;
    let page = client.query().page;
    fetches.push(page);
    stream.finish_next(backend(page))
}

/// Runs one step of a post stream in the same way.
fn next_post(
    stream: &mut PostStream<SafebooruClient>,
    fetches: &mut Vec<u32>,
    backend: &dyn Fn(u32) -> Result<Vec<booru_rs::safebooru::SafebooruPost>, BooruError>,
) -> Option<Result<booru_rs::safebooru::SafebooruPost, BooruError>> {
    match stream.next_buffered() {
        Buffered::Done => None,
        Buffered::Post(post) => Some(Ok(post)),
        Buffered::NeedPage => {
            let client = stream.start_page()?;
            let page = client.query().page;
            fetches.push(page);
            stream.finish_page(backend(page))
        }
    }
}

fn post(id: u32) -> booru_rs::safebooru::SafebooruPost {
    booru_rs::safebooru::SafebooruPost {
        id,
        score: None,
        height: 1,
        width: 1,
        hash: String::new(),
        tags: String::new(),
        image: String::new(),
        directory: 0,
        file_url: String::new(),
        preview_url: String::new(),
        sample_url: String::new(),
        source: String::new(),
        change: 0,
        rating: booru_rs::safebooru::SafebooruRating::General,
    }
}

fn posts(first: u32, count: u32) -> Vec<booru_rs::safebooru::SafebooruPost> {
    (first..first + count).map(post).collect()
}

#[test]
fn page_stream_walks_through_the_pages_in_order() {
    let mut stream = SafebooruClient::builder().tag("landscape").unwrap().limit(3).into_page_stream();
    let mut fetches = Vec::new();
    let backend = |n: u32| Ok(page(n * 3, 3));
    assert_eq!(stream.current_page(), 0);
    assert_eq!(next_page(&mut stream, &mut fetches, &backend), Some(Ok(vec![0, 1, 2])));
    assert_eq!(stream.current_page(), 1);
    assert_eq!(next_page(&mut stream, &mut fetches, &backend), Some(Ok(vec![3, 4, 5])));
    assert_eq!(next_page(&mut stream, &mut fetches, &backend), Some(Ok(vec![6, 7, 8])));
    assert_eq!(stream.current_page(), 3);
    assert!(!stream.is_exhausted());
    assert_eq!(fetches, vec![0, 1, 2]);
}

#[test]
fn page_stream_fetches_with_the_query_of_its_builder() {
    let mut stream = SafebooruClient::builder()
        .with_custom_url("http://mock")
        .tags(&["a", "b"])
        .unwrap()
        .limit(7)
        .page(5)
        .into_page_stream();
    let client = stream.start_next().unwrap();
    assert_eq!(client.query().page, 5);
    assert_eq!(client.query().limit, 7);
    assert_eq!(client.query().url, "http://mock");
    assert_eq!(client.query().tags, vec!["a".to_string(), "b".to_string()]);
    assert_eq!(stream.finish_next(Ok(vec![1u8])), Some(Ok(vec![1u8])));
    let client = stream.start_next().unwrap();
    assert_eq!(client.query().page, 6);
    assert_eq!(client.query().tags, vec!["a".to_string(), "b".to_string()]);
}

#[test]
fn page_stream_ends_at_an_empty_page() {
    let mut stream = PageStream::new(SafebooruClient::builder()).max_pages(100);
    let mut fetches = Vec::new();
    let backend = |n: u32| if n < 2 { Ok(page(n, 1)) } else { Ok(vec![]) };
    assert_eq!(next_page(&mut stream, &mut fetches, &backend), Some(Ok(vec![0])));
    assert_eq!(next_page(&mut stream, &mut fetches, &backend), Some(Ok(vec![1])));
    // The empty page is yielded, and ends the stream.
    assert_eq!(next_page(&mut stream, &mut fetches, &backend), Some(Ok(vec![])));
    assert!(stream.is_exhausted());
    assert_eq!(stream.current_page(), 2);
    for _ in 0..5 {
        assert_eq!(next_page(&mut stream, &mut fetches, &backend), None);
    }
    assert_eq!(fetches, vec![0, 1, 2]);
    assert_eq!(stream.current_page(), 2);
}

#[test]
fn page_stream_reports_an_error_once() {
    let mut stream = PageStream::new(SafebooruClient::builder().page(4));
    let mut fetches = Vec::new();
    let backend = |n: u32| if n < 5 { Ok(page(n, 2)) } else { Err(BooruError::RateLimited) };
    assert_eq!(next_page(&mut stream, &mut fetches, &backend), Some(Ok(vec![4, 5])));
    assert_eq!(next_page(&mut stream, &mut fetches, &backend), Some(Err(BooruError::RateLimited)));
    assert!(stream.is_exhausted());
    assert_eq!(next_page(&mut stream, &mut fetches, &backend), None);
    assert_eq!(next_page(&mut stream, &mut fetches, &backend), None);
    assert_eq!(fetches, vec![4, 5]);
}

#[test]
fn page_stream_stops_at_its_cap_of_pages() {
    let mut stream = PageStream::new(SafebooruClient::builder().page(10)).max_pages(2);
    let mut fetches = Vec::new();
    let backend = |n: u32| Ok(page(n, 1));
    assert_eq!(next_page(&mut stream, &mut fetches, &backend), Some(Ok(vec![10])));
    assert_eq!(next_page(&mut stream, &mut fetches, &backend), Some(Ok(vec![11])));
    assert!(!stream.is_exhausted());
    assert_eq!(next_page(&mut stream, &mut fetches, &backend), None);
    assert!(stream.is_exhausted());
    assert_eq!(next_page(&mut stream, &mut fetches, &backend), None);
    assert_eq!(fetches, vec![10, 11]);
    let mut none = PageStream::new(SafebooruClient::builder()).max_pages(0);
    assert!(none.start_next().is_none());
    assert!(none.is_exhausted());
}

#[test]
fn page_stream_ends_at_the_last_page_number() {
    let mut stream = PageStream::new(SafebooruClient::builder().page(u32::MAX - 1));
    let mut fetches = Vec::new();
    let backend = |n: u32| Ok(vec![n]);
    assert_eq!(next_page(&mut stream, &mut fetches, &backend), Some(Ok(vec![u32::MAX - 1])));
    assert_eq!(next_page(&mut stream, &mut fetches, &backend), Some(Ok(vec![u32::MAX])));
    assert!(stream.is_exhausted());
    assert_eq!(next_page(&mut stream, &mut fetches, &backend), None);
    assert_eq!(fetches, vec![u32::MAX - 1, u32::MAX]);
}

#[test]
fn an_ended_page_stream_drops_what_it_is_handed() {
    let mut stream = PageStream::new(SafebooruClient::builder());
    assert!(stream.start_next().is_some());
    assert_eq!(stream.finish_next(Ok(Vec::<u8>::new())), Some(Ok(vec![])));
    assert_eq!(stream.finish_next(Ok(vec![1u8, 2])), None);
    assert_eq!(stream.finish_next(Err::<Vec<u8>, _>(BooruError::RateLimited)), None);
    assert_eq!(stream.current_page(), 0);
    assert!(stream.is_exhausted());
}

#[test]
fn post_stream_yields_posts_in_page_order() {
    let mut stream = SafebooruClient::builder().limit(3).into_post_stream();
    let mut fetches = Vec::new();
    let backend = |n: u32| if n < 2 { Ok(posts(n * 3, 3)) } else { Ok(vec![]) };
    let mut ids = Vec::new();
    while let Some(result) = next_post(&mut stream, &mut fetches, &backend) {
        ids.push(result.unwrap().id);
    }
    assert_eq!(ids, vec![0, 1, 2, 3, 4, 5]);
    assert_eq!(stream.posts_yielded(), 6);
    assert_eq!(fetches, vec![0, 1, 2]);
    assert_eq!(stream.current_page(), 2);
    assert!(next_post(&mut stream, &mut fetches, &backend).is_none());
    assert_eq!(fetches, vec![0, 1, 2]);
}

#[test]
fn post_stream_stops_at_its_cap_of_posts() {
    // Pages of ten posts and a cap of five: five posts and one fetch.
    let mut stream = PostStream::new(SafebooruClient::builder().limit(10)).max_posts(5);
    let mut fetches = Vec::new();
    let backend = |n: u32| Ok(posts(n * 10, 10));
    let mut ids = Vec::new();
    while let Some(result) = next_post(&mut stream, &mut fetches, &backend) {
        ids.push(result.unwrap().id);
    }
    assert_eq!(ids, vec![0, 1, 2, 3, 4]);
    assert_eq!(stream.posts_yielded(), 5);
    for _ in 0..3 {
        assert!(next_post(&mut stream, &mut fetches, &backend).is_none());
    }
    assert_eq!(fetches, vec![0]);
    assert_eq!(stream.posts_yielded(), 5);
    // At the cap no page is asked for either.
    assert!(stream.start_page().is_none());
    assert!(matches!(stream.next_buffered(), Buffered::Done));
}

#[test]
fn post_stream_cap_spans_pages() {
    let mut stream = PostStream::new(SafebooruClient::builder()).max_posts(5);
    let mut fetches = Vec::new();
    let backend = |n: u32| Ok(posts(n * 2, 2));
    let mut ids = Vec::new();
    while let Some(result) = next_post(&mut stream, &mut fetches, &backend) {
        ids.push(result.unwrap().id);
    }
    assert_eq!(ids, vec![0, 1, 2, 3, 4]);
    assert_eq!(fetches, vec![0, 1, 2]);
}

#[test]
fn post_stream_with_a_cap_of_zero_yields_nothing() {
    let mut stream = PostStream::new(SafebooruClient::builder()).max_posts(0);
    let mut fetches = Vec::new();
    let backend = |n: u32| Ok(posts(n, 1));
    assert!(next_post(&mut stream, &mut fetches, &backend).is_none());
    assert!(fetches.is_empty());
}

#[test]
fn post_stream_passes_an_error_on_and_ends() {
    let mut stream = PostStream::new(SafebooruClient::builder());
    let mut fetches = Vec::new();
    let backend =
        |n: u32| if n == 0 { Ok(posts(0, 2)) } else { Err(BooruError::Parse("bad".to_string())) };
    assert_eq!(next_post(&mut stream, &mut fetches, &backend).unwrap().unwrap().id, 0);
    assert_eq!(next_post(&mut stream, &mut fetches, &backend).unwrap().unwrap().id, 1);
    assert_eq!(
        next_post(&mut stream, &mut fetches, &backend),
        Some(Err(BooruError::Parse("bad".to_string())))
    );
    assert!(next_post(&mut stream, &mut fetches, &backend).is_none());
    assert!(next_post(&mut stream, &mut fetches, &backend).is_none());
    assert_eq!(fetches, vec![0, 1]);
    assert_eq!(stream.posts_yielded(), 2);
}

#[test]
fn post_stream_respects_the_cap_of_pages() {
    let mut stream = PostStream::new(SafebooruClient::builder().page(3)).max_pages(1);
    let mut fetches = Vec::new();
    let backend = |n: u32| Ok(posts(n * 2, 2));
    assert_eq!(stream.current_page(), 3);
    let mut ids = Vec::new();
    while let Some(result) = next_post(&mut stream, &mut fetches, &backend) {
        ids.push(result.unwrap().id);
    }
    assert_eq!(ids, vec![6, 7]);
    assert_eq!(fetches, vec![3]);
}

#[test]
fn post_stream_asks_for_a_page_only_when_it_has_none() {
    let mut stream = PostStream::new(SafebooruClient::builder());
    assert!(matches!(stream.next_buffered(), Buffered::NeedPage));
    assert!(stream.start_page().is_some());
    assert_eq!(stream.finish_page(Ok(posts(0, 3))).unwrap().unwrap().id, 0);
    // Two posts are held: no page is asked for.
    assert!(stream.start_page().is_none());
    assert_eq!(stream.current_page(), 1);
    match stream.next_buffered() {
        Buffered::Post(post) => assert_eq!(post.id, 1),
        other => panic!("unexpected step: {:?}", other),
    }
    match stream.next_buffered() {
        Buffered::Post(post) => assert_eq!(post.id, 2),
        other => panic!("unexpected step: {:?}", other),
    }
    assert!(matches!(stream.next_buffered(), Buffered::NeedPage));
    assert_eq!(stream.posts_yielded(), 3);
}

#[test]
fn whole_steps_with_the_outcome_at_hand() {
    // Pages of ten posts and a cap of five: however many steps are taken,
    // one page is used and the cursor stays behind it.
    let mut stream = PostStream::new(SafebooruClient::builder().page(7)).max_posts(5);
    let mut ids = Vec::new();
    for step in 0..12u32 {
        match stream.next_with(Ok(posts(step * 10, 10))) {
            Some(Ok(post)) => ids.push(post.id),
            Some(Err(e)) => panic!("unexpected error: {:?}", e),
            None => {}
        }
    }
    assert_eq!(ids, vec![0, 1, 2, 3, 4]);
    assert_eq!(stream.posts_yielded(), 5);
    assert_eq!(stream.current_page(), 8);
}

#[test]
fn whole_steps_pass_errors_and_empty_pages_on() {
    let mut stream = PostStream::new(SafebooruClient::builder());
    assert_eq!(stream.next_with(Ok(posts(0, 2))).unwrap().unwrap().id, 0);
    // A post is held: the outcome at hand is dropped.
    assert_eq!(stream.next_with(Err(BooruError::RateLimited)).unwrap().unwrap().id, 1);
    assert_eq!(stream.current_page(), 1);
    assert_eq!(stream.next_with(Err(BooruError::RateLimited)), Some(Err(BooruError::RateLimited)));
    assert_eq!(stream.next_with(Ok(posts(5, 2))), None);
    let mut empty = PostStream::new(SafebooruClient::builder());
    assert_eq!(empty.next_with(Ok(vec![])), None);
    assert_eq!(empty.next_with(Ok(posts(5, 2))), None);
    assert_eq!(empty.posts_yielded(), 0);
}

#[test]
fn collecting_goes_on_until_the_end_or_an_error() {
    let mut collected: Vec<u32> = Vec::new();
    assert_eq!(collect_step(&mut collected, Some(Ok(1))), None);
    assert_eq!(collect_step(&mut collected, Some(Ok(2))), None);
    assert_eq!(collected, vec![1, 2]);
    assert_eq!(collect_step(&mut collected, None), Some(Ok(())));
    assert_eq!(collected, vec![1, 2]);
    // An error ends the collection, and what was collected is dropped.
    assert_eq!(
        collect_step(&mut collected, Some(Err(BooruError::RateLimited))),
        Some(Err(BooruError::RateLimited))
    );
    assert!(collected.is_empty());
}
