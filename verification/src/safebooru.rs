//! Safebooru client and model types.

pub use crate::client::safebooru::SafebooruClient;
pub use crate::model::safebooru::{SafebooruPost, SafebooruRating};
