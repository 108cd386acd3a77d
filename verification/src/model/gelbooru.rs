//! Models for Gelbooru API responses.

use vstd::prelude::*;
use crate::text::text;

verus! {

/// A post from Gelbooru.
#[derive(Debug, Clone, PartialEq)]
pub struct GelbooruPost {
    /// The ID of the post
    pub id: u32,
    /// Datestamp of the post's creating date
    pub created_at: String,
    /// Post's score
    pub score: u32,
    /// Post's image width
    pub width: u32,
    /// Post's image height
    pub height: u32,
    /// Post's image md5
    pub md5: String,
    /// Post's image file url
    pub file_url: String,
    /// Post's tags
    pub tags: String,
    /// Post's image name (with extension)
    pub image: String,
    /// Post's image source
    pub source: String,
    /// Post's rating
    pub rating: GelbooruRating,
}

/// Gelbooru's API response: an envelope round a list of posts.
#[derive(Debug, Clone)]
pub struct GelbooruResponse {
    pub posts: Vec<GelbooruPost>,
}

/// Post rating classification for Gelbooru.
#[derive(Debug, Clone, Copy, PartialEq, Eq, Hash)]
pub enum GelbooruRating {
    Explicit,
    Questionable,
    Safe,
    Sensitive,
    General,
}

impl GelbooruRating {
    /// The rating's name as it is written in a query.
    pub open spec fn name(self) -> Seq<char> {
        match self {
            GelbooruRating::Explicit => "explicit"@,
            GelbooruRating::Questionable => "questionable"@,
            GelbooruRating::Safe => "safe"@,
            GelbooruRating::Sensitive => "sensitive"@,
            GelbooruRating::General => "general"@,
        }
    }

    /// The rating's name as it is written in a query.
    pub fn to_string(&self) -> (s: String)
        ensures
            s@ == self.name(),
    {
        match self {
            GelbooruRating::Explicit => text("explicit"),
            GelbooruRating::Questionable => text("questionable"),
            GelbooruRating::Safe => text("safe"),
            GelbooruRating::Sensitive => text("sensitive"),
            GelbooruRating::General => text("general"),
        }
    }
}

} // verus!
