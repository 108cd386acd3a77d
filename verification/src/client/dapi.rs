//! The request convention that Gelbooru, Safebooru and Rule34 share: one
//! endpoint, `index.php`, with the operation named in its query parameters.

use vstd::prelude::*;
use crate::client::{Query, QueryView, Request, RequestView};
use crate::decimal::{decimal, decimal_string};
use crate::text::{join, join_strings, text};

verus! {

/// The endpoint of `base`.
pub open spec fn endpoint(base: Seq<char>) -> Seq<char> {
    base + "/index.php"@
}

/// The parameters that name the operation: a listing of posts.
pub open spec fn operation() -> Seq<(Seq<char>, Seq<char>)> {
    seq![("page"@, "dapi"@), ("s"@, "post"@), ("q"@, "index"@)]
}

/// The parameters that carry the credentials, where both are set.
pub open spec fn credential_params(q: QueryView) -> Seq<(Seq<char>, Seq<char>)> {
    match q.credentials() {
        Some((key, user)) => seq![("api_key"@, key), ("user_id"@, user)],
        None => seq![],
    }
}

/// The request for a page of posts: the tags joined by single spaces in the
/// order in which they were added, the page size and the page cursor.
pub open spec fn page_request(q: QueryView, authenticated: bool) -> RequestView {
    RequestView {
        url: endpoint(q.url),
        query: operation() + seq![
            ("pid"@, decimal(q.page as nat)),
            ("limit"@, decimal(q.limit as nat)),
            ("tags"@, join(q.tags, " "@)),
            ("json"@, "1"@),
        ] + if authenticated {
            credential_params(q)
        } else {
            seq![]
        },
        headers: seq![],
    }
}

/// The request for the post with the given id.
pub open spec fn post_request(q: QueryView, id: u32, authenticated: bool) -> RequestView {
    RequestView {
        url: endpoint(q.url),
        query: operation() + seq![("id"@, decimal(id as nat)), ("json"@, "1"@)]
            + if authenticated {
            credential_params(q)
        } else {
            seq![]
        },
        headers: seq![],
    }
}

fn begin(q: &Query) -> (r: Request)
    ensures
        r@ == (RequestView { url: endpoint(q@.url), query: operation(), headers: seq![] }),
{
    let mut url = q.url.clone();
    url.append("/index.php");
    let mut r = Request::new(url);
    r.param("page", text("dapi"));
    r.param("s", text("post"));
    r.param("q", text("index"));
    assert(r@.query =~= operation());
    r
}

fn finish(r: &mut Request, q: &Query, authenticated: bool)
    ensures
        final(r)@ == (RequestView {
            query: old(r)@.query + seq![("json"@, "1"@)] + if authenticated {
                credential_params(q@)
            } else {
                seq![]
            },
            ..old(r)@
        }),
{
    r.param("json", text("1"));
    if authenticated {
        match (&q.key, &q.user) {
            (Some(key), Some(user)) => {
                r.param("api_key", key.clone());
                r.param("user_id", user.clone());
            },
            _ => {},
        }
    }
    assert(r@.query =~= old(r)@.query + seq![("json"@, "1"@)] + if authenticated {
        credential_params(q@)
    } else {
        seq![]
    });
}

/// Builds the request for a page of posts. The credentials are sent only
/// where `authenticated` is set and the query holds both of them.
pub fn build_page_request(q: &Query, authenticated: bool) -> (r: Request)
    ensures
        r@ == page_request(q@, authenticated),
{
    let mut r = begin(q);
    r.param("pid", decimal_string(q.page as u64));
    r.param("limit", decimal_string(q.limit as u64));
    r.param("tags", join_strings(&q.tags, " "));
    finish(&mut r, q, authenticated);
    assert(r@.query =~= page_request(q@, authenticated).query);
    r
}

/// Builds the request for the post with the given id. The credentials are
/// sent only where `authenticated` is set and the query holds both of them.
pub fn build_post_request(q: &Query, id: u32, authenticated: bool) -> (r: Request)
    ensures
        r@ == post_request(q@, id, authenticated),
{
    let mut r = begin(q);
    r.param("id", decimal_string(id as u64));
    finish(&mut r, q, authenticated);
    assert(r@.query =~= post_request(q@, id, authenticated).query);
    r
}

} // verus!
