//! Rule34 API client implementation.

use vstd::prelude::*;
use crate::autocomplete::{read_items, Autocomplete, AutocompleteItem, Reading, TagSuggestion};
use crate::client::dapi;
use crate::client::gelbooru::GelbooruClient;
use crate::client::{
    initial_query, Client, ClientBuilder, Decode, Query, QueryView, Request, RequestView,
    Verdict, UNAUTHORIZED,
};
use crate::error::BooruError;
use crate::model::rule34::{Rule34Post, Rule34Rating};
use crate::text::{chars_of, contains_seq, contains_str, spells, text};

verus! {

/// Client for interacting with the Rule34 API.
///
/// Rule34 has no tag limit for queries. It requires API credentials: set
/// them with [`ClientBuilder::set_credentials`].
#[derive(Debug)]
pub struct Rule34Client(Query);

impl Rule34Client {
    /// Creates a new builder for this client.
    #[must_use]
    pub fn builder() -> (r: ClientBuilder<Rule34Client>)
        ensures
            r@ == initial_query::<Rule34Client>(),
            r.within_limit(),
    {
        ClientBuilder::new()
    }

    /// What the error says when Rule34 refuses a request for want of
    /// credentials.
    pub open spec fn hint() -> Seq<char> {
        "Rule34 requires API credentials. Use set_credentials(api_key, user_id)"@
    }

    /// The words by which a body tells that credentials are missing, whatever
    /// the status that comes with it.
    pub open spec fn marker() -> Seq<char> {
        "Missing authentication"@
    }

    /// Whether an answer refuses the request for want of credentials: by
    /// status 401, or by a body that holds the marker.
    pub open spec fn refuses(status: u16, body: Seq<char>) -> bool {
        status == UNAUTHORIZED || contains_seq(body, Self::marker())
    }

    /// Whether a body stands for an empty page: no text at all, or an empty
    /// JSON array.
    pub open spec fn is_empty_page(body: Seq<char>) -> bool {
        body.len() == 0 || body == "[]"@
    }

    fn unauthorized() -> (e: BooruError)
        ensures
            e matches BooruError::Unauthorized(hint) && hint@ == Self::hint(),
    {
        BooruError::Unauthorized(
            text("Rule34 requires API credentials. Use set_credentials(api_key, user_id)"),
        )
    }
}

impl Client for Rule34Client {
    type Post = Rule34Post;

    type Rating = Rule34Rating;

    open spec fn spec_url() -> Seq<char> {
        "https://api.rule34.xxx"@
    }

    open spec fn spec_sort() -> Seq<char> {
        "sort:"@
    }

    open spec fn spec_max_tags() -> Option<usize> {
        None
    }

    open spec fn spec_name() -> Seq<char> {
        "Rule34Client"@
    }

    open spec fn spec_rating(rating: Rule34Rating) -> Seq<char> {
        rating.name()
    }

    closed spec fn spec_query(&self) -> QueryView {
        self.0@
    }

    /// The credentials go with the request, as query parameters, where both
    /// are set.
    open spec fn spec_page_request(query: QueryView) -> RequestView {
        dapi::page_request(query, true)
    }

    /// The credentials go with the request, as query parameters, where both
    /// are set.
    open spec fn spec_post_request(query: QueryView, id: u32) -> RequestView {
        dapi::post_request(query, id, true)
    }

    /// An answer that refuses the request stands for
    /// [`BooruError::Unauthorized`], whether it says so by status 401 or in
    /// its body. Of the others, an empty body and an empty JSON array stand
    /// for an empty page, and the rest is read as a JSON array of posts.
    open spec fn spec_page_response(status: u16, body: Seq<char>) -> Verdict {
        if Self::refuses(status, body) {
            Verdict::Unauthorized(Self::hint())
        } else if Self::is_empty_page(body) {
            Verdict::Read(Decode::Nothing)
        } else {
            Verdict::Read(Decode::List)
        }
    }

    /// An answer that refuses the request stands for
    /// [`BooruError::Unauthorized`], whether it says so by status 401 or in
    /// its body. Every other answer is read as a JSON array of posts.
    open spec fn spec_post_response(status: u16, body: Seq<char>) -> Verdict {
        if Self::refuses(status, body) {
            Verdict::Unauthorized(Self::hint())
        } else {
            Verdict::Read(Decode::List)
        }
    }

    fn url() -> (r: &'static str) {
        "https://api.rule34.xxx"
    }

    fn sort_prefix() -> (r: &'static str) {
        "sort:"
    }

    fn max_tags() -> (r: Option<usize>) {
        None
    }

    fn name() -> (r: &'static str) {
        "Rule34Client"
    }

    fn rating_name(rating: Rule34Rating) -> (r: String) {
        rating.to_string()
    }

    fn from_query(query: Query) -> (r: Self) {
        Rule34Client(query)
    }

    fn query(&self) -> (r: &Query) {
        &self.0
    }

    fn page_request(&self) -> (r: Request) {
        dapi::build_page_request(&self.0, true)
    }

    fn post_request(&self, id: u32) -> (r: Request) {
        dapi::build_post_request(&self.0, id, true)
    }

    fn page_response(status: u16, body: &str) -> (r: Result<Decode, BooruError>) {
        if status == UNAUTHORIZED {
            return Err(Self::unauthorized());
        }
        let chars = chars_of(body);
        if contains_str(&chars, "Missing authentication") {
            return Err(Self::unauthorized());
        }
        if chars.len() == 0 || spells(&chars, "[]") {
            Ok(Decode::Nothing)
        } else {
            Ok(Decode::List)
        }
    }

    fn post_response(status: u16, body: &str) -> (r: Result<Decode, BooruError>) {
        if status == UNAUTHORIZED {
            return Err(Self::unauthorized());
        }
        let chars = chars_of(body);
        if contains_str(&chars, "Missing authentication") {
            return Err(Self::unauthorized());
        }
        Ok(Decode::List)
    }
}

/// The request that asks Rule34 for tags that match the prefix `query`. The
/// endpoint is fixed and takes no limit.
pub open spec fn autocomplete_request(query: Seq<char>) -> RequestView {
    RequestView {
        url: "https://api.rule34.xxx/autocomplete.php"@,
        query: seq![("q"@, query)],
        headers: seq![],
    }
}

impl Autocomplete for Rule34Client {
    open spec fn spec_autocomplete_request(query: Seq<char>, limit: u32) -> RequestView {
        autocomplete_request(query)
    }

    /// Status 401 stands for [`BooruError::Unauthorized`]; every other status
    /// leaves the body to be read.
    open spec fn spec_refusal(status: u16) -> Option<Seq<char>> {
        if status == UNAUTHORIZED {
            Some("Rule34 autocomplete request failed"@)
        } else {
            None
        }
    }

    /// Every item is read by name and label, with the count from the label.
    open spec fn spec_reading() -> Reading {
        Reading::FromLabel
    }

    /// Every item is read, whatever the limit.
    open spec fn spec_kept(count: nat, limit: u32) -> nat {
        count
    }

    fn autocomplete_request(query: &str, _limit: u32) -> (r: Request) {
        let mut r = Request::new(text("https://api.rule34.xxx/autocomplete.php"));
        r.param("q", text(query));
        assert(r@.query =~= autocomplete_request(query@).query);
        r
    }

    fn autocomplete_response(status: u16) -> (r: Result<(), BooruError>) {
        if status == UNAUTHORIZED {
            Err(BooruError::Unauthorized(text("Rule34 autocomplete request failed")))
        } else {
            Ok(())
        }
    }

    fn suggestions(items: &Vec<AutocompleteItem>, _limit: u32) -> (r: Vec<TagSuggestion>) {
        read_items(items, Reading::FromLabel, items.len())
    }
}

/// A refusal is one kind of error, however a site words it: an answer with
/// status 401, whatever its body, and an answer whose body holds Rule34's
/// marker, whatever its status, both stand for
/// [`BooruError::Unauthorized`], for page requests and for post requests.
pub proof fn lemma_refusals_are_unauthorized(
    status: u16,
    body: Seq<char>,
    marked: Seq<char>,
    r: Result<Decode, BooruError>,
)
    requires
        contains_seq(marked, Rule34Client::marker()),
    ensures
        GelbooruClient::spec_page_response(UNAUTHORIZED, body) is Unauthorized,
        GelbooruClient::spec_post_response(UNAUTHORIZED, body) is Unauthorized,
        Rule34Client::spec_page_response(UNAUTHORIZED, body) is Unauthorized,
        Rule34Client::spec_post_response(UNAUTHORIZED, body) is Unauthorized,
        Rule34Client::spec_page_response(status, marked) is Unauthorized,
        Rule34Client::spec_post_response(status, marked) is Unauthorized,
        Rule34Client::spec_page_response(status, marked).is_met_by(r) ==> r is Err && r->Err_0
            is Unauthorized,
        GelbooruClient::spec_page_response(UNAUTHORIZED, body).is_met_by(r) ==> r is Err
            && r->Err_0 is Unauthorized,
{
}

} // verus!
