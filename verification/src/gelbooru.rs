//! Gelbooru client and model types.

pub use crate::client::gelbooru::GelbooruClient;
pub use crate::model::gelbooru::{GelbooruPost, GelbooruRating, GelbooruResponse};
