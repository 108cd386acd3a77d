//! Safebooru API client implementation.

use vstd::prelude::*;
use crate::autocomplete::{
    at_most, read_items, Autocomplete, AutocompleteItem, Reading, TagSuggestion,
};
use crate::client::dapi;
use crate::client::{
    initial_query, Client, ClientBuilder, Decode, Query, QueryView, Request, RequestView,
    Verdict,
};
use crate::error::BooruError;
use crate::model::safebooru::{SafebooruPost, SafebooruRating};
use crate::text::text;

verus! {

/// Client for interacting with the Safebooru API.
///
/// Safebooru is a SFW-only booru with no tag limits and no credentials.
#[derive(Debug)]
pub struct SafebooruClient(Query);

impl SafebooruClient {
    /// Creates a new builder for this client.
    #[must_use]
    pub fn builder() -> (r: ClientBuilder<SafebooruClient>)
        ensures
            r@ == initial_query::<SafebooruClient>(),
            r.within_limit(),
    {
        ClientBuilder::new()
    }
}

impl Client for SafebooruClient {
    type Post = SafebooruPost;

    type Rating = SafebooruRating;

    open spec fn spec_url() -> Seq<char> {
        "https://safebooru.org"@
    }

    open spec fn spec_sort() -> Seq<char> {
        "sort:"@
    }

    open spec fn spec_max_tags() -> Option<usize> {
        None
    }

    open spec fn spec_name() -> Seq<char> {
        "SafebooruClient"@
    }

    open spec fn spec_rating(rating: SafebooruRating) -> Seq<char> {
        rating.name()
    }

    closed spec fn spec_query(&self) -> QueryView {
        self.0@
    }

    /// Safebooru takes no credentials: none are sent.
    open spec fn spec_page_request(query: QueryView) -> RequestView {
        dapi::page_request(query, false)
    }

    open spec fn spec_post_request(query: QueryView, id: u32) -> RequestView {
        dapi::post_request(query, id, false)
    }

    /// Every answer is read as a JSON array of posts.
    open spec fn spec_page_response(status: u16, body: Seq<char>) -> Verdict {
        Verdict::Read(Decode::List)
    }

    /// Every answer is read as a JSON array of posts.
    open spec fn spec_post_response(status: u16, body: Seq<char>) -> Verdict {
        Verdict::Read(Decode::List)
    }

    fn url() -> (r: &'static str) {
        "https://safebooru.org"
    }

    fn sort_prefix() -> (r: &'static str) {
        "sort:"
    }

    fn max_tags() -> (r: Option<usize>) {
        None
    }

    fn name() -> (r: &'static str) {
        "SafebooruClient"
    }

    fn rating_name(rating: SafebooruRating) -> (r: String) {
        rating.to_string()
    }

    fn from_query(query: Query) -> (r: Self) {
        SafebooruClient(query)
    }

    fn query(&self) -> (r: &Query) {
        &self.0
    }

    fn page_request(&self) -> (r: Request) {
        dapi::build_page_request(&self.0, false)
    }

    fn post_request(&self, id: u32) -> (r: Request) {
        dapi::build_post_request(&self.0, id, false)
    }

    fn page_response(_status: u16, _body: &str) -> (r: Result<Decode, BooruError>) {
        Ok(Decode::List)
    }

    fn post_response(_status: u16, _body: &str) -> (r: Result<Decode, BooruError>) {
        Ok(Decode::List)
    }
}

/// The request that asks Safebooru for tags that match the prefix `query`.
/// The site takes no limit.
pub open spec fn autocomplete_request(query: Seq<char>) -> RequestView {
    RequestView {
        url: SafebooruClient::spec_url() + "/autocomplete.php"@,
        query: seq![("q"@, query)],
        headers: seq![],
    }
}

impl Autocomplete for SafebooruClient {
    open spec fn spec_autocomplete_request(query: Seq<char>, limit: u32) -> RequestView {
        autocomplete_request(query)
    }

    /// Every status leaves the body to be read.
    open spec fn spec_refusal(status: u16) -> Option<Seq<char>> {
        None
    }

    /// Every item is read by name and label, with the count from the label.
    open spec fn spec_reading() -> Reading {
        Reading::FromLabel
    }

    /// The first `limit` items are read: the site takes no limit, so the
    /// answer is cut here.
    open spec fn spec_kept(count: nat, limit: u32) -> nat {
        at_most(count, limit)
    }

    fn autocomplete_request(query: &str, _limit: u32) -> (r: Request) {
        let mut url = text(Self::url());
        url.append("/autocomplete.php");
        let mut r = Request::new(url);
        r.param("q", text(query));
        assert(r@.query =~= autocomplete_request(query@).query);
        r
    }

    fn autocomplete_response(_status: u16) -> (r: Result<(), BooruError>) {
        Ok(())
    }

    fn suggestions(items: &Vec<AutocompleteItem>, limit: u32) -> (r: Vec<TagSuggestion>) {
        read_items(items, Reading::FromLabel, limit as usize)
    }
}

} // verus!
