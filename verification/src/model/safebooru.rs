//! Models for Safebooru API responses.

use vstd::prelude::*;
use crate::text::text;

verus! {

/// A post from Safebooru.
#[derive(Debug, Clone, PartialEq)]
pub struct SafebooruPost {
    pub id: u32,
    pub score: Option<u32>,
    pub height: u32,
    pub width: u32,
    pub hash: String,
    pub tags: String,
    pub image: String,
    /// Directory number where the image is stored
    pub directory: u32,
    /// Full URL to the image file
    pub file_url: String,
    /// URL to the preview/thumbnail image
    pub preview_url: String,
    /// URL to the sample (resized) image
    pub sample_url: String,
    /// Source URL for the original artwork
    pub source: String,
    /// When the post last changed, as a UNIX timestamp.
    pub change: u32,
    pub rating: SafebooruRating,
}

/// Post rating classification for Safebooru.
#[derive(Debug, Clone, Copy, PartialEq, Eq, Hash)]
pub enum SafebooruRating {
    Safe,
    General,
    Questionable,
    Explicit,
}

impl SafebooruRating {
    /// The rating's name as it is written in a query.
    pub open spec fn name(self) -> Seq<char> {
        match self {
            SafebooruRating::Safe => "safe"@,
            SafebooruRating::General => "general"@,
            SafebooruRating::Questionable => "questionable"@,
            SafebooruRating::Explicit => "explicit"@,
        }
    }

    /// The rating's name as it is written in a query.
    pub fn to_string(&self) -> (s: String)
        ensures
            s@ == self.name(),
    {
        match self {
            SafebooruRating::Safe => text("safe"),
            SafebooruRating::General => text("general"),
            SafebooruRating::Questionable => text("questionable"),
            SafebooruRating::Explicit => text("explicit"),
        }
    }
}

} // verus!
