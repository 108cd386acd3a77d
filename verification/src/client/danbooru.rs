//! Danbooru API client implementation.

use vstd::prelude::*;
use crate::autocomplete::{read_items, Autocomplete, AutocompleteItem, Reading, TagSuggestion};
use crate::client::{
    initial_query, Client, ClientBuilder, Decode, Query, QueryView, Request, RequestView,
    Verdict,
};
use crate::decimal::{decimal, decimal_string, push_decimal};
use crate::error::BooruError;
use crate::model::danbooru::{DanbooruPost, DanbooruRating};
use crate::text::{join, join_strings, text};

verus! {

/// The headers that Danbooru asks for: it refuses requests that name no
/// user agent.
pub open spec fn headers() -> Seq<(Seq<char>, Seq<char>)> {
    seq![("User-Agent"@, "booru-rs/0.3.0"@)]
}

/// Adds the headers that Danbooru asks for to `r`.
pub fn add_headers(r: &mut Request)
    ensures
        final(r)@ == (RequestView { headers: old(r)@.headers + headers(), ..old(r)@ }),
{
    r.header("User-Agent", text("booru-rs/0.3.0"));
    assert(r@.headers =~= old(r)@.headers + headers());
}

/// The request for a page of posts: the page size, the page cursor, and the
/// tags joined by single spaces in the order in which they were added.
pub open spec fn page_request(q: QueryView) -> RequestView {
    RequestView {
        url: q.url + "/posts.json"@,
        query: seq![
            ("limit"@, decimal(q.limit as nat)),
            ("page"@, decimal(q.page as nat)),
            ("tags"@, join(q.tags, " "@)),
        ],
        headers: headers(),
    }
}

/// The request for the post with the given id.
pub open spec fn post_request(q: QueryView, id: u32) -> RequestView {
    RequestView {
        url: q.url + "/posts/"@ + decimal(id as nat) + ".json"@,
        query: seq![],
        headers: headers(),
    }
}

/// Client for interacting with the Danbooru API.
///
/// Danbooru has a limit of 2 tags per query for non-authenticated users.
#[derive(Debug)]
pub struct DanbooruClient(Query);

impl DanbooruClient {
    /// Creates a new builder for this client.
    #[must_use]
    pub fn builder() -> (r: ClientBuilder<DanbooruClient>)
        ensures
            r@ == initial_query::<DanbooruClient>(),
            r.within_limit(),
    {
        ClientBuilder::new()
    }
}

impl Client for DanbooruClient {
    type Post = DanbooruPost;

    type Rating = DanbooruRating;

    open spec fn spec_url() -> Seq<char> {
        "https://danbooru.donmai.us"@
    }

    open spec fn spec_sort() -> Seq<char> {
        "order:"@
    }

    open spec fn spec_max_tags() -> Option<usize> {
        Some(2usize)
    }

    open spec fn spec_name() -> Seq<char> {
        "DanbooruClient"@
    }

    open spec fn spec_rating(rating: DanbooruRating) -> Seq<char> {
        rating.name()
    }

    closed spec fn spec_query(&self) -> QueryView {
        self.0@
    }

    open spec fn spec_page_request(query: QueryView) -> RequestView {
        page_request(query)
    }

    open spec fn spec_post_request(query: QueryView, id: u32) -> RequestView {
        post_request(query, id)
    }

    /// Every answer is read as a JSON array of posts.
    open spec fn spec_page_response(status: u16, body: Seq<char>) -> Verdict {
        Verdict::Read(Decode::List)
    }

    /// Every answer is read as one post.
    open spec fn spec_post_response(status: u16, body: Seq<char>) -> Verdict {
        Verdict::Read(Decode::Single)
    }

    fn url() -> (r: &'static str) {
        "https://danbooru.donmai.us"
    }

    fn sort_prefix() -> (r: &'static str) {
        "order:"
    }

    fn max_tags() -> (r: Option<usize>) {
        Some(2)
    }

    fn name() -> (r: &'static str) {
        "DanbooruClient"
    }

    fn rating_name(rating: DanbooruRating) -> (r: String) {
        rating.to_string()
    }

    fn from_query(query: Query) -> (r: Self) {
        DanbooruClient(query)
    }

    fn query(&self) -> (r: &Query) {
        &self.0
    }

    fn page_request(&self) -> (r: Request) {
        let mut url = self.0.url.clone();
        url.append("/posts.json");
        let mut r = Request::new(url);
        r.param("limit", decimal_string(self.0.limit as u64));
        r.param("page", decimal_string(self.0.page as u64));
        r.param("tags", join_strings(&self.0.tags, " "));
        add_headers(&mut r);
        assert(r@.query =~= page_request(self.spec_query()).query);
        r
    }

    fn post_request(&self, id: u32) -> (r: Request) {
        let mut url = self.0.url.clone();
        url.append("/posts/");
        push_decimal(&mut url, id as u64);
        url.append(".json");
        let mut r = Request::new(url);
        add_headers(&mut r);
        r
    }

    fn page_response(_status: u16, _body: &str) -> (r: Result<Decode, BooruError>) {
        Ok(Decode::List)
    }

    fn post_response(_status: u16, _body: &str) -> (r: Result<Decode, BooruError>) {
        Ok(Decode::Single)
    }
}

/// The request that asks Danbooru for tags that match the prefix `query`.
pub open spec fn autocomplete_request(query: Seq<char>, limit: u32) -> RequestView {
    RequestView {
        url: DanbooruClient::spec_url() + "/autocomplete.json"@,
        query: seq![
            ("search[query]"@, query),
            ("search[type]"@, "tag_query"@),
            ("limit"@, decimal(limit as nat)),
        ],
        headers: headers(),
    }
}

impl Autocomplete for DanbooruClient {
    open spec fn spec_autocomplete_request(query: Seq<char>, limit: u32) -> RequestView {
        autocomplete_request(query, limit)
    }

    /// Every status leaves the body to be read.
    open spec fn spec_refusal(status: u16) -> Option<Seq<char>> {
        None
    }

    /// Every item is read as it is given: Danbooru sends count and category
    /// as fields.
    open spec fn spec_reading() -> Reading {
        Reading::AsGiven
    }

    /// Every item is read: the limit went with the request.
    open spec fn spec_kept(count: nat, limit: u32) -> nat {
        count
    }

    fn autocomplete_request(query: &str, limit: u32) -> (r: Request) {
        let mut url = text(Self::url());
        url.append("/autocomplete.json");
        let mut r = Request::new(url);
        r.param("search[query]", text(query));
        r.param("search[type]", text("tag_query"));
        r.param("limit", decimal_string(limit as u64));
        add_headers(&mut r);
        assert(r@.query =~= autocomplete_request(query@, limit).query);
        r
    }

    fn autocomplete_response(_status: u16) -> (r: Result<(), BooruError>) {
        Ok(())
    }

    fn suggestions(items: &Vec<AutocompleteItem>, _limit: u32) -> (r: Vec<TagSuggestion>) {
        read_items(items, Reading::AsGiven, items.len())
    }
}

} // verus!
