//! Generic types used across booru clients.

use vstd::prelude::*;
use crate::text::text;

verus! {

/// Sort order for post queries.
///
/// These are the common sort options available on most booru sites.
#[derive(Debug, Clone, Copy, PartialEq, Eq, Hash)]
#[non_exhaustive]
pub enum Sort {
    /// Sort by post ID.
    Id,
    /// Sort by score/votes.
    Score,
    /// Sort by rating.
    Rating,
    /// Sort by uploader.
    User,
    /// Sort by image height.
    Height,
    /// Sort by image width.
    Width,
    /// Sort by source URL.
    Source,
    /// Sort by last update time.
    Updated,
    /// Random ordering.
    Random,
}

impl Sort {
    /// The order's name as it is written in a query, behind the sort prefix.
    pub open spec fn name(self) -> Seq<char> {
        match self {
            Sort::Id => "id"@,
            Sort::Score => "score"@,
            Sort::Rating => "rating"@,
            Sort::User => "user"@,
            Sort::Height => "height"@,
            Sort::Width => "width"@,
            Sort::Source => "source"@,
            Sort::Updated => "updated"@,
            Sort::Random => "random"@,
        }
    }

    /// The order's name as it is written in a query, behind the sort prefix.
    pub fn to_string(&self) -> (s: String)
        ensures
            s@ == self.name(),
    {
        match self {
            Sort::Id => text("id"),
            Sort::Score => text("score"),
            Sort::Rating => text("rating"),
            Sort::User => text("user"),
            Sort::Height => text("height"),
            Sort::Width => text("width"),
            Sort::Source => text("source"),
            Sort::Updated => text("updated"),
            Sort::Random => text("random"),
        }
    }
}

} // verus!
