//! A typed client core for image-board ("booru") REST APIs.
//!
//! The crate covers what a client decides and computes: building a query
//! under a site's tag limit, turning it into the site's HTTP request, reading
//! what the site's answer means, walking through pages and posts, scheduling
//! retries, limiting the request rate, caching responses and validating
//! tags. It performs no I/O: requests are described, not sent, and every
//! operation that depends on time takes the time as an argument.
//!
//! Every function is verified against its contract. Four facts about the
//! standard library are taken on trust, each marked where it stands: what
//! `String::push` does, and that `char::is_alphanumeric`,
//! `str::to_lowercase` and the `Debug` rendering of a list of characters
//! depend on their argument alone.
//!
//! | Site | Client | Tag Limit | Credentials |
//! |------|--------|-----------|-------------|
//! | Danbooru | [`DanbooruClient`] | 2 | No |
//! | Gelbooru | [`GelbooruClient`] | Unlimited | Yes |
//! | Safebooru | [`SafebooruClient`] | Unlimited | No |
//! | Rule34 | [`Rule34Client`] | Unlimited | Yes |

pub mod autocomplete;
pub mod backoff;
pub mod cache;
pub mod client;
pub mod danbooru;
pub mod decimal;
pub mod download;
pub mod error;
pub mod fingerprint;
pub mod gelbooru;
pub mod model;
pub mod prelude;
pub mod ratelimit;
pub mod retry;
pub mod rule34;
pub mod safebooru;
pub mod stream;
pub mod text;
pub mod validation;

pub use client::generic::Sort;
pub use client::Client;
pub use client::ClientBuilder;
pub use client::DanbooruClient;
pub use client::GelbooruClient;
pub use client::Rule34Client;
pub use client::SafebooruClient;
pub use error::BooruError;
pub use model::Post;
