//! Models for Danbooru API responses.

use vstd::prelude::*;
use crate::text::text;

verus! {

/// A post from Danbooru.
///
/// This struct represents a single image post from Danbooru,
/// including all metadata like tags, ratings, and file information.
#[derive(Debug, Clone, PartialEq)]
pub struct DanbooruPost {
    pub id: u32,
    pub created_at: String,
    pub updated_at: String,
    pub uploader_id: u32,
    pub approver_id: Option<u32>,
    pub tag_string: String,
    pub tag_string_general: String,
    pub tag_string_artist: String,
    pub tag_string_copyright: String,
    pub tag_string_character: String,
    pub tag_string_meta: String,
    pub rating: Option<DanbooruRating>,
    pub parent_id: Option<u32>,
    pub pixiv_id: Option<u32>,
    pub source: String,
    pub md5: Option<String>,
    pub file_url: Option<String>,
    pub large_file_url: Option<String>,
    pub preview_file_url: Option<String>,
    pub file_ext: String,
    pub file_size: u32,
    pub image_width: u32,
    pub image_height: u32,
    pub score: i32,
    pub up_score: i32,
    pub down_score: i32,
    pub fav_count: u32,
    pub tag_count_general: u32,
    pub tag_count_artist: u32,
    pub tag_count_copyright: u32,
    pub tag_count_character: u32,
    pub tag_count_meta: u32,
    pub last_comment_bumped_at: Option<String>,
    pub last_noted_at: Option<String>,
    pub has_large: bool,
    pub has_children: bool,
    pub has_visible_children: bool,
    pub has_active_children: bool,
    pub is_banned: bool,
    pub is_deleted: bool,
    pub is_flagged: bool,
    pub is_pending: bool,
    pub bit_flags: u32,
}

/// Post rating classification.
///
/// Danbooru uses a four-tier rating system.
#[derive(Debug, Clone, Copy, PartialEq, Eq, Hash)]
pub enum DanbooruRating {
    Explicit,
    Questionable,
    Sensitive,
    General,
}

impl DanbooruRating {
    /// The rating's name as it is written in a query.
    pub open spec fn name(self) -> Seq<char> {
        match self {
            DanbooruRating::Explicit => "explicit"@,
            DanbooruRating::Questionable => "questionable"@,
            DanbooruRating::Sensitive => "sensitive"@,
            DanbooruRating::General => "general"@,
        }
    }

    /// The rating's name as it is written in a query.
    pub fn to_string(&self) -> (s: String)
        ensures
            s@ == self.name(),
    {
        match self {
            DanbooruRating::Explicit => text("explicit"),
            DanbooruRating::Questionable => text("questionable"),
            DanbooruRating::Sensitive => text("sensitive"),
            DanbooruRating::General => text("general"),
        }
    }
}

} // verus!
