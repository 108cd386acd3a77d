//! Convenient re-exports for common usage patterns.

pub use crate::cache::{Cache, CacheConfig};
pub use crate::client::generic::Sort;
pub use crate::client::{Client, ClientBuilder, Decode, Query, Request};
pub use crate::client::{DanbooruClient, GelbooruClient, Rule34Client, SafebooruClient};
pub use crate::download::{DownloadOptions, DownloadProgress, DownloadResult};
pub use crate::error::BooruError;
pub use crate::model::danbooru::{DanbooruPost, DanbooruRating};
pub use crate::model::gelbooru::{GelbooruPost, GelbooruRating, GelbooruResponse};
pub use crate::model::rule34::{Rule34Post, Rule34Rating};
pub use crate::model::safebooru::{SafebooruPost, SafebooruRating};
pub use crate::ratelimit::RateLimiter;
pub use crate::retry::RetryConfig;
pub use crate::stream::{PageStream, PostStream};
pub use crate::validation::{validate_tag, TagValidation, TagWarning};
