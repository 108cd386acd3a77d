//! Danbooru client and model types.

pub use crate::client::danbooru::DanbooruClient;
pub use crate::model::danbooru::{DanbooruPost, DanbooruRating};
