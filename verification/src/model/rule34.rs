//! Models for Rule34 API responses.

use vstd::prelude::*;
use crate::text::text;

verus! {

/// A post from Rule34.
#[derive(Debug, Clone, PartialEq)]
pub struct Rule34Post {
    /// The ID of the post
    pub id: u32,
    /// Post's score
    pub score: i32,
    /// Post's image width
    pub width: u32,
    /// Post's image height
    pub height: u32,
    /// Post's image file url
    pub file_url: String,
    /// Post's preview/thumbnail url
    pub preview_url: String,
    /// Post's sample (resized) url
    pub sample_url: String,
    /// Post's tags (space-separated)
    pub tags: String,
    /// Post's rating
    pub rating: Rule34Rating,
    /// Post's source
    pub source: String,
    /// Whether the post has notes
    pub has_notes: bool,
    /// Number of comments
    pub comment_count: u32,
    /// Post owner/uploader
    pub owner: String,
    /// Parent post ID (0 if none)
    pub parent_id: u32,
    /// Post status
    pub status: String,
    /// Change timestamp (Unix time)
    pub change: u64,
    /// Directory number
    pub directory: u32,
    /// Image filename
    pub image: String,
    /// Image hash
    pub hash: String,
}

/// Post rating classification for Rule34.
#[derive(Debug, Clone, Copy, PartialEq, Eq, Hash)]
pub enum Rule34Rating {
    Explicit,
    Questionable,
    Safe,
    General,
    Sensitive,
}

impl Rule34Rating {
    /// The rating's name as it is written in a query.
    pub open spec fn name(self) -> Seq<char> {
        match self {
            Rule34Rating::Explicit => "explicit"@,
            Rule34Rating::Questionable => "questionable"@,
            Rule34Rating::Safe => "safe"@,
            Rule34Rating::General => "general"@,
            Rule34Rating::Sensitive => "sensitive"@,
        }
    }

    /// The rating's name as it is written in a query.
    pub fn to_string(&self) -> (s: String)
        ensures
            s@ == self.name(),
    {
        match self {
            Rule34Rating::Explicit => text("explicit"),
            Rule34Rating::Questionable => text("questionable"),
            Rule34Rating::Safe => text("safe"),
            Rule34Rating::General => text("general"),
            Rule34Rating::Sensitive => text("sensitive"),
        }
    }
}

} // verus!
