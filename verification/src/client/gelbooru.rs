//! Gelbooru API client implementation.

use vstd::prelude::*;
use crate::autocomplete::{read_items, Autocomplete, AutocompleteItem, Reading, TagSuggestion};
use crate::client::dapi;
use crate::client::{
    initial_query, Client, ClientBuilder, Decode, Query, QueryView, Request, RequestView,
    Verdict, UNAUTHORIZED,
};
use crate::decimal::{decimal, decimal_string};
use crate::error::BooruError;
use crate::model::gelbooru::{GelbooruPost, GelbooruRating};
use crate::text::text;

verus! {

/// Client for interacting with the Gelbooru API.
///
/// Gelbooru has no tag limit for queries. It requires API credentials: set
/// them with [`ClientBuilder::set_credentials`].
#[derive(Debug)]
pub struct GelbooruClient(Query);

impl GelbooruClient {
    /// Creates a new builder for this client.
    #[must_use]
    pub fn builder() -> (r: ClientBuilder<GelbooruClient>)
        ensures
            r@ == initial_query::<GelbooruClient>(),
            r.within_limit(),
    {
        ClientBuilder::new()
    }

    /// What the error says when Gelbooru refuses a request for want of
    /// credentials.
    pub open spec fn hint() -> Seq<char> {
        "Gelbooru requires API credentials. Use set_credentials(api_key, user_id)"@
    }

    /// What an answer with the given status means.
    pub open spec fn verdict(status: u16) -> Verdict {
        if status == UNAUTHORIZED {
            Verdict::Unauthorized(Self::hint())
        } else {
            Verdict::Read(Decode::Envelope)
        }
    }

    fn response(status: u16) -> (r: Result<Decode, BooruError>)
        ensures
            Self::verdict(status).is_met_by(r),
    {
        if status == UNAUTHORIZED {
            Err(
                BooruError::Unauthorized(
                    text("Gelbooru requires API credentials. Use set_credentials(api_key, user_id)"),
                ),
            )
        } else {
            Ok(Decode::Envelope)
        }
    }
}

impl Client for GelbooruClient {
    type Post = GelbooruPost;

    type Rating = GelbooruRating;

    open spec fn spec_url() -> Seq<char> {
        "https://gelbooru.com"@
    }

    open spec fn spec_sort() -> Seq<char> {
        "sort:"@
    }

    open spec fn spec_max_tags() -> Option<usize> {
        None
    }

    open spec fn spec_name() -> Seq<char> {
        "GelbooruClient"@
    }

    open spec fn spec_rating(rating: GelbooruRating) -> Seq<char> {
        rating.name()
    }

    closed spec fn spec_query(&self) -> QueryView {
        self.0@
    }

    /// The credentials go with the request, as query parameters, where both
    /// are set.
    open spec fn spec_page_request(query: QueryView) -> RequestView {
        dapi::page_request(query, true)
    }

    /// The credentials go with the request, as query parameters, where both
    /// are set.
    open spec fn spec_post_request(query: QueryView, id: u32) -> RequestView {
        dapi::post_request(query, id, true)
    }

    /// Status 401 stands for [`BooruError::Unauthorized`]; every other answer
    /// is read as an envelope round the posts.
    open spec fn spec_page_response(status: u16, body: Seq<char>) -> Verdict {
        Self::verdict(status)
    }

    /// Status 401 stands for [`BooruError::Unauthorized`]; every other answer
    /// is read as an envelope round the posts.
    open spec fn spec_post_response(status: u16, body: Seq<char>) -> Verdict {
        Self::verdict(status)
    }

    fn url() -> (r: &'static str) {
        "https://gelbooru.com"
    }

    fn sort_prefix() -> (r: &'static str) {
        "sort:"
    }

    fn max_tags() -> (r: Option<usize>) {
        None
    }

    fn name() -> (r: &'static str) {
        "GelbooruClient"
    }

    fn rating_name(rating: GelbooruRating) -> (r: String) {
        rating.to_string()
    }

    fn from_query(query: Query) -> (r: Self) {
        GelbooruClient(query)
    }

    fn query(&self) -> (r: &Query) {
        &self.0
    }

    fn page_request(&self) -> (r: Request) {
        dapi::build_page_request(&self.0, true)
    }

    fn post_request(&self, id: u32) -> (r: Request) {
        dapi::build_post_request(&self.0, id, true)
    }

    fn page_response(status: u16, _body: &str) -> (r: Result<Decode, BooruError>) {
        Self::response(status)
    }

    fn post_response(status: u16, _body: &str) -> (r: Result<Decode, BooruError>) {
        Self::response(status)
    }
}

/// The request that asks Gelbooru for tags that match the prefix `query`.
pub open spec fn autocomplete_request(query: Seq<char>, limit: u32) -> RequestView {
    RequestView {
        url: dapi::endpoint(GelbooruClient::spec_url()),
        query: seq![
            ("page"@, "autocomplete2"@),
            ("term"@, query),
            ("type"@, "tag_query"@),
            ("limit"@, decimal(limit as nat)),
        ],
        headers: seq![],
    }
}

impl Autocomplete for GelbooruClient {
    open spec fn spec_autocomplete_request(query: Seq<char>, limit: u32) -> RequestView {
        autocomplete_request(query, limit)
    }

    /// Status 401 stands for [`BooruError::Unauthorized`]; every other status
    /// leaves the body to be read.
    open spec fn spec_refusal(status: u16) -> Option<Seq<char>> {
        if status == UNAUTHORIZED {
            Some("Gelbooru requires API credentials for some endpoints"@)
        } else {
            None
        }
    }

    /// Every item is read with the count from its label where it has none
    /// of its own, and with its category by name or number.
    open spec fn spec_reading() -> Reading {
        Reading::WithLabelCount
    }

    /// Every item is read: the limit went with the request.
    open spec fn spec_kept(count: nat, limit: u32) -> nat {
        count
    }

    fn autocomplete_request(query: &str, limit: u32) -> (r: Request) {
        let mut url = text(Self::url());
        url.append("/index.php");
        let mut r = Request::new(url);
        r.param("page", text("autocomplete2"));
        r.param("term", text(query));
        r.param("type", text("tag_query"));
        r.param("limit", decimal_string(limit as u64));
        assert(r@.query =~= autocomplete_request(query@, limit).query);
        r
    }

    fn autocomplete_response(status: u16) -> (r: Result<(), BooruError>) {
        if status == UNAUTHORIZED {
            Err(
                BooruError::Unauthorized(
                    text("Gelbooru requires API credentials for some endpoints"),
                ),
            )
        } else {
            Ok(())
        }
    }

    fn suggestions(items: &Vec<AutocompleteItem>, _limit: u32) -> (r: Vec<TagSuggestion>) {
        read_items(items, Reading::WithLabelCount, items.len())
    }
}

} // verus!
