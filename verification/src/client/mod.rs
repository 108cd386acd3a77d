//! Query building and request construction for the supported booru sites.
//!
//! A [`ClientBuilder`] accumulates a [`Query`]: tags, page size, page cursor,
//! credentials and base URL. [`ClientBuilder::build`] freezes it into a client
//! of one site. A client performs no I/O itself: it says which [`Request`] to
//! send and what an answer means, and leaves sending to its caller.

use vstd::prelude::*;
use std::marker::PhantomData;
use crate::error::BooruError;
use crate::text::{clone_optional, clone_strings, optional_view, push_string, text, views};

pub mod danbooru;
pub mod dapi;
pub mod gelbooru;
pub mod generic;
pub mod rule34;
pub mod safebooru;

pub use danbooru::DanbooruClient;
pub use gelbooru::GelbooruClient;
pub use rule34::Rule34Client;
pub use safebooru::SafebooruClient;

verus! {

/// The page size of a query for which none was asked.
pub const DEFAULT_LIMIT: u32 = 100;

/// The HTTP status with which a site refuses a request for want of
/// credentials.
pub const UNAUTHORIZED: u16 = 401;

/// The parameters of one fetch: what a builder accumulates and a client holds.
#[derive(Debug)]
pub struct Query {
    /// API key, for sites that ask for credentials.
    pub key: Option<String>,
    /// User id, for sites that ask for credentials.
    pub user: Option<String>,
    /// The query's tags, in the order in which they were added.
    pub tags: Vec<String>,
    /// Requested page size.
    pub limit: u32,
    /// Base URL of the site.
    pub url: String,
    /// Zero-based page cursor.
    pub page: u32,
}

/// The mathematical value of a [`Query`].
pub struct QueryView {
    pub key: Option<Seq<char>>,
    pub user: Option<Seq<char>>,
    pub tags: Seq<Seq<char>>,
    pub limit: u32,
    pub url: Seq<char>,
    pub page: u32,
}

impl View for Query {
    type V = QueryView;

    open spec fn view(&self) -> QueryView {
        QueryView {
            key: optional_view(self.key),
            user: optional_view(self.user),
            tags: views(self.tags@),
            limit: self.limit,
            url: self.url@,
            page: self.page,
        }
    }
}

impl Clone for Query {
    fn clone(&self) -> (r: Self)
        ensures
            r@ == self@,
    {
        Query {
            key: clone_optional(&self.key),
            user: clone_optional(&self.user),
            tags: clone_strings(&self.tags),
            limit: self.limit,
            url: self.url.clone(),
            page: self.page,
        }
    }
}

impl QueryView {
    /// The query with `tag` added behind its other tags.
    pub open spec fn with_tag(self, tag: Seq<char>) -> QueryView {
        QueryView { tags: self.tags.push(tag), ..self }
    }

    /// The query with `tags` added, in order, behind its other tags.
    pub open spec fn with_tags(self, tags: Seq<Seq<char>>) -> QueryView {
        QueryView { tags: self.tags + tags, ..self }
    }

    /// Both credentials, where both are set.
    pub open spec fn credentials(self) -> Option<(Seq<char>, Seq<char>)> {
        match (self.key, self.user) {
            (Some(key), Some(user)) => Some((key, user)),
            _ => None,
        }
    }
}

/// Name and value of a query parameter or of a header.
pub type Pair = (String, String);

/// The texts of a list of pairs.
pub open spec fn pair_views(pairs: Seq<Pair>) -> Seq<(Seq<char>, Seq<char>)> {
    Seq::new(pairs.len(), |i: int| (pairs[i].0@, pairs[i].1@))
}

/// An HTTP GET request, as the values that a transport needs to send it.
#[derive(Debug, Clone, PartialEq, Eq)]
pub struct Request {
    /// Scheme, host and path.
    pub url: String,
    /// Query parameters, in the order in which they are sent.
    pub query: Vec<Pair>,
    /// Headers to send with the request.
    pub headers: Vec<Pair>,
}

/// The mathematical value of a [`Request`].
pub struct RequestView {
    pub url: Seq<char>,
    pub query: Seq<(Seq<char>, Seq<char>)>,
    pub headers: Seq<(Seq<char>, Seq<char>)>,
}

impl View for Request {
    type V = RequestView;

    open spec fn view(&self) -> RequestView {
        RequestView {
            url: self.url@,
            query: pair_views(self.query@),
            headers: pair_views(self.headers@),
        }
    }
}

impl Request {
    /// A request for `url` with no parameters and no headers.
    pub fn new(url: String) -> (r: Request)
        ensures
            r@ == (RequestView { url: url@, query: seq![], headers: seq![] }),
    {
        let r = Request { url, query: Vec::new(), headers: Vec::new() };
        assert(r@.query =~= seq![]);
        assert(r@.headers =~= seq![]);
        r
    }

    /// Adds the query parameter `name=value` behind the others.
    pub fn param(&mut self, name: &str, value: String)
        ensures
            final(self)@ == (RequestView {
                query: old(self)@.query.push((name@, value@)),
                ..old(self)@
            }),
    {
        self.query.push((text(name), value));
        assert(pair_views(self.query@) =~= pair_views(old(self).query@).push((name@, value@)));
    }

    /// Adds the header `name: value` behind the others.
    pub fn header(&mut self, name: &str, value: String)
        ensures
            final(self)@ == (RequestView {
                headers: old(self)@.headers.push((name@, value@)),
                ..old(self)@
            }),
    {
        self.headers.push((text(name), value));
        assert(pair_views(self.headers@) =~= pair_views(old(self).headers@).push(
            (name@, value@),
        ));
    }
}

/// What to read a response body as.
#[derive(Debug, Clone, Copy, PartialEq, Eq)]
pub enum Decode {
    /// Nothing: the body stands for an empty list of posts.
    Nothing,
    /// A JSON array of posts.
    List,
    /// A JSON object that holds the posts under the key `post`.
    Envelope,
    /// A JSON object that is one post.
    Single,
}

/// One supported site: its fixed properties, how its requests are built and
/// what its answers mean.
pub trait Client: Sized {
    /// The post type returned by this client.
    type Post;

    /// The rating type for this booru site.
    type Rating;

    /// Base URL for the booru API.
    spec fn spec_url() -> Seq<char>;

    /// Prefix used for sorting tags (e.g., "order:" or "sort:").
    spec fn spec_sort() -> Seq<char>;

    /// Maximum number of tags allowed per query, or `None` for unlimited.
    spec fn spec_max_tags() -> Option<usize>;

    /// The name by which errors call this client.
    spec fn spec_name() -> Seq<char>;

    /// The name of `rating` as it is written in a query.
    spec fn spec_rating(rating: Self::Rating) -> Seq<char>;

    /// The query that this client was built from.
    spec fn spec_query(&self) -> QueryView;

    /// Base URL for the booru API.
    fn url() -> (r: &'static str)
        ensures
            r@ == Self::spec_url(),
    ;

    /// Prefix used for sorting tags (e.g., "order:" or "sort:").
    fn sort_prefix() -> (r: &'static str)
        ensures
            r@ == Self::spec_sort(),
    ;

    /// Maximum number of tags allowed per query, or `None` for unlimited.
    fn max_tags() -> (r: Option<usize>)
        ensures
            r == Self::spec_max_tags(),
    ;

    /// The name by which errors call this client.
    fn name() -> (r: &'static str)
        ensures
            r@ == Self::spec_name(),
    ;

    /// The name of `rating` as it is written in a query.
    fn rating_name(rating: Self::Rating) -> (r: String)
        ensures
            r@ == Self::spec_rating(rating),
    ;

    /// The client that fetches what `query` describes. The query holds no
    /// more tags than the site allows.
    fn from_query(query: Query) -> (r: Self)
        requires
            match Self::spec_max_tags() {
                Some(max) => query@.tags.len() <= max,
                None => true,
            },
        ensures
            r.spec_query() == query@,
    ;

    /// The query that this client was built from.
    fn query(&self) -> (r: &Query)
        ensures
            r@ == self.spec_query(),
    ;

    /// The request that fetches the page of posts that `query` describes.
    spec fn spec_page_request(query: QueryView) -> RequestView;

    /// The request that fetches the post with the given id from the site
    /// that `query` names.
    spec fn spec_post_request(query: QueryView, id: u32) -> RequestView;

    /// What an answer to a page request means.
    spec fn spec_page_response(status: u16, body: Seq<char>) -> Verdict;

    /// What an answer to a post request means.
    spec fn spec_post_response(status: u16, body: Seq<char>) -> Verdict;

    /// The request that fetches the query's page of posts.
    fn page_request(&self) -> (r: Request)
        ensures
            r@ == Self::spec_page_request(self.spec_query()),
    ;

    /// The request that fetches the post with the given id.
    fn post_request(&self, id: u32) -> (r: Request)
        ensures
            r@ == Self::spec_post_request(self.spec_query(), id),
    ;

    /// What an answer to [`Client::page_request`] means: how to read its
    /// body, or the error that it stands for.
    fn page_response(status: u16, body: &str) -> (r: Result<Decode, BooruError>)
        ensures
            Self::spec_page_response(status, body@).is_met_by(r),
    ;

    /// What an answer to [`Client::post_request`] means: how to read its
    /// body, or the error that it stands for. A body that is read as several
    /// posts holds the post that was asked for in the first place: see
    /// [`first_post`].
    fn post_response(status: u16, body: &str) -> (r: Result<Decode, BooruError>)
        ensures
            Self::spec_post_response(status, body@).is_met_by(r),
    ;
}

/// What an answer means, as far as its status and its body tell.
pub enum Verdict {
    /// The body is to be read in this way.
    Read(Decode),
    /// The site refuses the request for want of credentials; the error says
    /// this, as the hint to mend it.
    Unauthorized(Seq<char>),
}

impl Verdict {
    /// Whether `r` says what the verdict says: the same way to read the
    /// body, or [`BooruError::Unauthorized`] with the same hint.
    pub open spec fn is_met_by(self, r: Result<Decode, BooruError>) -> bool {
        match r {
            Ok(decode) => self == Verdict::Read(decode),
            Err(BooruError::Unauthorized(hint)) => self == Verdict::Unauthorized(hint@),
            Err(_) => false,
        }
    }
}

/// The first of the posts that an id lookup brought, or
/// [`BooruError::PostNotFound`] where it brought none.
pub fn first_post<P>(posts: Vec<P>, id: u32) -> (r: Result<P, BooruError>)
    ensures
        match r {
            Ok(post) => posts@.len() > 0 && post == posts@[0],
            Err(BooruError::PostNotFound(missing)) => posts@.len() == 0 && missing == id,
            Err(_) => false,
        },
{
    let mut posts = posts;
    if posts.len() == 0 {
        Err(BooruError::PostNotFound(id))
    } else {
        Ok(posts.swap_remove(0))
    }
}

/// Whether a query holds no more tags than the site `T` allows.
pub open spec fn fits<T: Client>(query: QueryView) -> bool {
    match T::spec_max_tags() {
        Some(max) => query.tags.len() <= max,
        None => true,
    }
}

/// The query of a new builder: no tags, no credentials, the site's own URL,
/// the first page and [`DEFAULT_LIMIT`] posts a page.
pub open spec fn initial_query<T: Client>() -> QueryView {
    QueryView {
        key: None,
        user: None,
        tags: seq![],
        limit: DEFAULT_LIMIT,
        url: T::spec_url(),
        page: 0,
    }
}

/// The count that follows `count` (held at `usize::MAX`, which no list
/// reaches).
pub open spec fn next_count(count: nat) -> usize {
    if count < usize::MAX {
        (count + 1) as usize
    } else {
        usize::MAX
    }
}

/// Builder for constructing booru API clients.
///
/// This builder allows you to configure various options before
/// creating a client to query a booru site. Whatever is done with it, it
/// never holds more tags than its site allows.
#[derive(Debug)]
pub struct ClientBuilder<T: Client> {
    query: Query,
    marker: PhantomData<T>,
}

impl<T: Client> View for ClientBuilder<T> {
    type V = QueryView;

    closed spec fn view(&self) -> QueryView {
        self.query@
    }
}

impl<T: Client> Clone for ClientBuilder<T> {
    fn clone(&self) -> (r: Self)
        ensures
            r@ == self@,
    {
        proof {
            use_type_invariant(self);
        }
        ClientBuilder { query: self.query.clone(), marker: PhantomData }
    }
}

impl<T: Client> ClientBuilder<T> {
    #[verifier::type_invariant]
    spec fn inv(self) -> bool {
        self.within_limit()
    }

    /// Whether the query holds as many tags as the site allows.
    pub open spec fn at_limit(self) -> bool {
        match T::spec_max_tags() {
            Some(max) => self@.tags.len() >= max,
            None => false,
        }
    }

    /// The number of tags that one more tag would make (held at
    /// `usize::MAX`, which no list of tags reaches).
    pub open spec fn attempted(self) -> usize {
        next_count(self@.tags.len())
    }

    /// The builder's invariant: the query holds no more tags than the site
    /// allows.
    pub open spec fn within_limit(self) -> bool {
        fits::<T>(self@)
    }

    /// What adding the tag `tag` to the query gives: below the limit, the
    /// query with the tag behind its other tags; at the limit,
    /// [`BooruError::TagLimitExceeded`] with the site's maximum and the
    /// number of tags that the addition would have made, and no new query.
    pub open spec fn adds(self, tag: Seq<char>, r: Result<Self, BooruError>) -> bool {
        match r {
            Ok(b) => !self.at_limit() && b@ == self@.with_tag(tag) && b.within_limit(),
            Err(BooruError::TagLimitExceeded { client, max, actual }) => {
                &&& self.at_limit()
                &&& client@ == T::spec_name()
                &&& Some(max) == T::spec_max_tags()
                &&& self@.tags.len() == max
                &&& actual == next_count(max as nat)
            },
            Err(_) => false,
        }
    }

    /// Whether adding `count` tags one by one runs into the site's limit.
    pub open spec fn overflows(self, count: nat) -> bool {
        match T::spec_max_tags() {
            Some(max) => self@.tags.len() + count > max,
            None => false,
        }
    }

    /// What adding the tags `tags`, one by one and in order, gives: the query
    /// with all of them where the limit leaves room for all, else the error
    /// of the first that it leaves no room for, and no new query.
    pub open spec fn adds_all(self, tags: Seq<Seq<char>>, r: Result<Self, BooruError>) -> bool {
        match r {
            Ok(b) => !self.overflows(tags.len()) && b@ == self@.with_tags(tags)
                && b.within_limit(),
            Err(BooruError::TagLimitExceeded { client, max, actual }) => {
                &&& self.overflows(tags.len())
                &&& client@ == T::spec_name()
                &&& Some(max) == T::spec_max_tags()
                &&& actual == next_count(max as nat)
            },
            Err(_) => false,
        }
    }

    /// Creates a new builder with default settings: no tags, no credentials,
    /// the site's own URL, the first page and [`DEFAULT_LIMIT`] posts a page.
    #[must_use]
    pub fn new() -> (r: Self)
        ensures
            r@ == initial_query::<T>(),
            r.within_limit(),
    {
        let query = Query {
            key: None,
            user: None,
            tags: Vec::new(),
            limit: DEFAULT_LIMIT,
            url: text(T::url()),
            page: 0,
        };
        assert(query@.tags =~= seq![]);
        ClientBuilder { query, marker: PhantomData }
    }

    /// Sets a custom base URL for the API.
    ///
    /// This is primarily useful for testing with mock servers.
    #[must_use]
    pub fn with_custom_url(self, url: &str) -> (r: Self)
        ensures
            r@ == (QueryView { url: url@, ..self@ }),
            r.within_limit(),
    {
        proof {
            use_type_invariant(&self);
        }
        let mut query = self.query;
        query.url = text(url);
        ClientBuilder { query, marker: PhantomData }
    }

    /// Sets the API key and username for authenticated requests.
    #[must_use]
    pub fn set_credentials(self, key: &str, user: &str) -> (r: Self)
        ensures
            r@ == (QueryView { key: Some(key@), user: Some(user@), ..self@ }),
            r.within_limit(),
    {
        proof {
            use_type_invariant(&self);
        }
        let mut query = self.query;
        query.key = Some(text(key));
        query.user = Some(text(user));
        ClientBuilder { query, marker: PhantomData }
    }

    /// Adds `tag` behind the other tags, unless the query is at the site's
    /// limit. Every operation that adds a tag goes through here.
    fn add(self, tag: String) -> (r: Result<Self, BooruError>)
        ensures
            self.adds(tag@, r),
    {
        proof {
            use_type_invariant(&self);
        }
        if let Some(max) = T::max_tags() {
            let count = self.query.tags.len();
            if count >= max {
                return Err(
                    BooruError::TagLimitExceeded {
                        client: T::name(),
                        max,
                        actual: if count < usize::MAX {
                            count + 1
                        } else {
                            count
                        },
                    },
                );
            }
        }
        let mut query = self.query;
        push_string(&mut query.tags, tag);
        Ok(ClientBuilder { query, marker: PhantomData })
    }

    fn add_all(self, tags: &Vec<String>) -> (r: Result<Self, BooruError>)
        ensures
            self.adds_all(views(tags@), r),
    {
        proof {
            use_type_invariant(&self);
        }
        let ghost added = views(tags@);
        let ghost start = self@;
        let mut b = self;
        let mut i: usize = 0;
        assert(start.tags + added.subrange(0, 0) =~= start.tags);
        while i < tags.len()
            invariant
                i <= tags@.len(),
                start == self@,
                added == views(tags@),
                b@ == start.with_tags(added.subrange(0, i as int)),
                b.within_limit(),
                !self.overflows(i as nat),
            decreases tags@.len() - i,
        {
            let ghost before = b@;
            match b.add(tags[i].clone()) {
                Ok(next) => {
                    b = next;
                },
                Err(e) => {
                    assert(before.tags.len() == start.tags.len() + i);
                    return Err(e);
                },
            }
            i += 1;
            assert(b@.tags =~= start.tags + added.subrange(0, i as int)) by {
                assert(added.subrange(0, i as int) =~= added.subrange(0, i - 1).push(
                    added[i - 1],
                ));
            }
        }
        assert(added.subrange(0, tags@.len() as int) =~= added);
        Ok(b)
    }

    /// Adds a tag to the search query.
    ///
    /// # Errors
    ///
    /// Returns [`BooruError::TagLimitExceeded`] if the query already holds as
    /// many tags as the site allows. The error reports the site's maximum and
    /// the number of tags that the addition would have made.
    pub fn tag(self, tag: &str) -> (r: Result<Self, BooruError>)
        ensures
            self.adds(tag@, r),
    {
        self.add(text(tag))
    }

    /// Adds every tag of `tags` to the search query, in order.
    ///
    /// # Errors
    ///
    /// Returns [`BooruError::TagLimitExceeded`] for the first tag that the
    /// site's limit leaves no room for.
    pub fn tags(self, tags: &[&str]) -> (r: Result<Self, BooruError>)
        ensures
            self.adds_all(Seq::new(tags@.len(), |i: int| tags@[i]@), r),
    {
        let mut list: Vec<String> = Vec::new();
        let mut i: usize = 0;
        while i < tags.len()
            invariant
                i <= tags@.len(),
                list@.len() == i,
                forall|j: int| 0 <= j < i ==> (#[trigger] list@[j])@ == tags@[j]@,
            decreases tags@.len() - i,
        {
            list.push(text(tags[i]));
            i += 1;
        }
        assert(views(list@) =~= Seq::new(tags@.len(), |i: int| tags@[i]@));
        self.add_all(&list)
    }

    /// Adds a rating filter to the search query: the tag `rating:` and the
    /// rating's name. The tag counts against the site's limit like any other.
    ///
    /// # Errors
    ///
    /// Returns [`BooruError::TagLimitExceeded`] if the query already holds as
    /// many tags as the site allows.
    pub fn rating(self, rating: T::Rating) -> (r: Result<Self, BooruError>)
        ensures
            self.adds("rating:"@ + T::spec_rating(rating), r),
    {
        let mut tag = text("rating:");
        let name = T::rating_name(rating);
        tag.append(name.as_str());
        self.add(tag)
    }

    /// Sets the maximum number of posts to retrieve in one page.
    #[must_use]
    pub fn limit(self, limit: u32) -> (r: Self)
        ensures
            r@ == (QueryView { limit, ..self@ }),
            r.within_limit(),
    {
        proof {
            use_type_invariant(&self);
        }
        let mut query = self.query;
        query.limit = limit;
        ClientBuilder { query, marker: PhantomData }
    }

    /// Enables random ordering of results: adds the site's sort prefix
    /// followed by `random` as a tag. The tag counts against the site's limit
    /// like any other.
    ///
    /// # Errors
    ///
    /// Returns [`BooruError::TagLimitExceeded`] if the query already holds as
    /// many tags as the site allows.
    pub fn random(self) -> (r: Result<Self, BooruError>)
        ensures
            self.adds(T::spec_sort() + "random"@, r),
    {
        let mut tag = text(T::sort_prefix());
        tag.append("random");
        self.add(tag)
    }

    /// Adds a sort order to the query: the site's sort prefix followed by the
    /// order's name, as a tag. The tag counts against the site's limit like
    /// any other.
    ///
    /// # Errors
    ///
    /// Returns [`BooruError::TagLimitExceeded`] if the query already holds as
    /// many tags as the site allows.
    pub fn sort(self, order: generic::Sort) -> (r: Result<Self, BooruError>)
        ensures
            self.adds(T::spec_sort() + order.name(), r),
    {
        let mut tag = text(T::sort_prefix());
        let name = order.to_string();
        tag.append(name.as_str());
        self.add(tag)
    }

    /// Excludes posts with the specified tag: adds `-` followed by `tag` as a
    /// tag. The tag counts against the site's limit like any other.
    ///
    /// # Errors
    ///
    /// Returns [`BooruError::TagLimitExceeded`] if the query already holds as
    /// many tags as the site allows.
    pub fn blacklist_tag(self, tag: &str) -> (r: Result<Self, BooruError>)
        ensures
            self.adds("-"@ + tag@, r),
    {
        let mut negated = text("-");
        negated.append(tag);
        self.add(negated)
    }

    /// Excludes posts with any of the specified tags.
    ///
    /// # Errors
    ///
    /// Returns [`BooruError::TagLimitExceeded`] for the first tag that the
    /// site's limit leaves no room for.
    pub fn blacklist_tags(self, tags: &[&str]) -> (r: Result<Self, BooruError>)
        ensures
            self.adds_all(Seq::new(tags@.len(), |i: int| "-"@ + tags@[i]@), r),
    {
        let mut list: Vec<String> = Vec::new();
        let mut i: usize = 0;
        while i < tags.len()
            invariant
                i <= tags@.len(),
                list@.len() == i,
                forall|j: int| 0 <= j < i ==> (#[trigger] list@[j])@ == "-"@ + tags@[j]@,
            decreases tags@.len() - i,
        {
            let mut negated = text("-");
            negated.append(tags[i]);
            list.push(negated);
            i += 1;
        }
        assert(views(list@) =~= Seq::new(tags@.len(), |i: int| "-"@ + tags@[i]@));
        self.add_all(&list)
    }

    /// Overrides the default API URL.
    #[must_use]
    pub fn default_url(self, url: &str) -> (r: Self)
        ensures
            r@ == (QueryView { url: url@, ..self@ }),
            r.within_limit(),
    {
        self.with_custom_url(url)
    }

    /// Sets the page number for pagination. Page numbering starts at 0.
    #[must_use]
    pub fn page(self, page: u32) -> (r: Self)
        ensures
            r@ == (QueryView { page, ..self@ }),
            r.within_limit(),
    {
        proof {
            use_type_invariant(&self);
        }
        let mut query = self.query;
        query.page = page;
        ClientBuilder { query, marker: PhantomData }
    }

    /// Returns the current number of tags in the query: never more than the
    /// site allows.
    #[must_use]
    pub fn tag_count(&self) -> (r: usize)
        ensures
            r == self@.tags.len(),
            self.within_limit(),
    {
        proof {
            use_type_invariant(self);
        }
        self.query.tags.len()
    }

    /// Returns `true` if the builder has any tags configured.
    #[must_use]
    pub fn has_tags(&self) -> (r: bool)
        ensures
            r == (self@.tags.len() > 0),
    {
        self.query.tags.len() > 0
    }

    /// The page that the query asks for.
    #[must_use]
    pub fn current_page(&self) -> (r: u32)
        ensures
            r == self@.page,
    {
        self.query.page
    }

    /// Builds the client with the configured options. No request is sent.
    /// The client's query holds no more tags than the site allows.
    #[must_use]
    pub fn build(self) -> (r: T)
        ensures
            r.spec_query() == self@,
            self.within_limit(),
    {
        proof {
            use_type_invariant(&self);
        }
        T::from_query(self.query)
    }
}

/// The tag limit: on a site that allows `max` tags, a query that holds `max`
/// tags is at its limit, and whatever adds a tag to it (a plain tag, a
/// rating, a sort order, a negated tag) fails with
/// [`BooruError::TagLimitExceeded`] that reports `max` and `max + 1`, and
/// makes no new query. What does not fail stays within the limit.
pub proof fn lemma_tag_limit<T: Client>(
    builder: ClientBuilder<T>,
    max: usize,
    tag: Seq<char>,
    r: Result<ClientBuilder<T>, BooruError>,
)
    requires
        T::spec_max_tags() == Some(max),
        max < usize::MAX,
        builder.adds(tag, r),
    ensures
        builder@.tags.len() == max ==> (r matches Err(
            BooruError::TagLimitExceeded { max: m, actual, .. },
        ) && m == max && actual == max + 1),
        r is Ok ==> builder@.tags.len() < max && r->Ok_0@.tags.len() == builder@.tags.len() + 1
            && r->Ok_0@.tags.len() <= max,
{
}

impl<T: Client> Default for ClientBuilder<T> {
    fn default() -> (r: Self)
        ensures
            r@ == initial_query::<T>(),
            r.within_limit(),
    {
        Self::new()
    }
}

} // verus!
