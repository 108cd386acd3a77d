//! Tag autocomplete for booru sites.
//!
//! A site answers an autocomplete request with a list of items; this module
//! turns them into [`TagSuggestion`]s. Each client says which request to send
//! and how its site's items are to be read.

use vstd::prelude::*;
use crate::client::{Request, RequestView};
use crate::decimal::{parse_decimal, parse_decimal_str, parse_unsigned};
use crate::error::BooruError;
use crate::text::{chars_of, last_position, rfind_char, spells, text};

verus! {

/// The lowercase form of a text, as `str::to_lowercase` gives it.
pub uninterp spec fn lowercase(s: Seq<char>) -> Seq<char>;

/// `str::to_lowercase`: the lowercase equivalent of the text, a function of
/// the text alone.
pub assume_specification[ str::to_lowercase ](s: &str) -> (r: String)
    ensures
        r@ == lowercase(s@),
;

/// A tag suggestion from autocomplete.
#[derive(Debug, Clone, PartialEq, Eq)]
pub struct TagSuggestion {
    /// The tag name (with underscores).
    pub name: String,
    /// Human-readable label (may include post count or spaces).
    pub label: String,
    /// Number of posts with this tag (if available).
    pub post_count: Option<u32>,
    /// Tag category (0=general, 1=artist, 3=copyright, 4=character, 5=meta).
    pub category: Option<u8>,
}

/// The mathematical value of a [`TagSuggestion`].
pub struct TagSuggestionView {
    pub name: Seq<char>,
    pub label: Seq<char>,
    pub post_count: Option<u32>,
    pub category: Option<u8>,
}

impl View for TagSuggestion {
    type V = TagSuggestionView;

    open spec fn view(&self) -> TagSuggestionView {
        TagSuggestionView {
            name: self.name@,
            label: self.label@,
            post_count: self.post_count,
            category: self.category,
        }
    }
}

/// The name of the category with the given id.
pub open spec fn category_label(id: u8) -> Seq<char> {
    if id == 0 {
        "general"@
    } else if id == 1 {
        "artist"@
    } else if id == 3 {
        "copyright"@
    } else if id == 4 {
        "character"@
    } else if id == 5 {
        "meta"@
    } else {
        "unknown"@
    }
}

impl TagSuggestion {
    /// Creates a new tag suggestion.
    pub fn new(name: &str, label: &str) -> (r: Self)
        ensures
            r@ == (TagSuggestionView {
                name: name@,
                label: label@,
                post_count: None,
                category: None,
            }),
    {
        TagSuggestion { name: text(name), label: text(label), post_count: None, category: None }
    }

    /// Creates a tag suggestion with post count.
    pub fn with_count(name: &str, label: &str, post_count: u32) -> (r: Self)
        ensures
            r@ == (TagSuggestionView {
                name: name@,
                label: label@,
                post_count: Some(post_count),
                category: None,
            }),
    {
        TagSuggestion {
            name: text(name),
            label: text(label),
            post_count: Some(post_count),
            category: None,
        }
    }

    /// Returns the category name based on the category ID.
    #[must_use]
    pub fn category_name(&self) -> (r: Option<&'static str>)
        ensures
            match r {
                Some(name) => self.category is Some && name@ == category_label(
                    self.category->Some_0,
                ),
                None => self.category is None,
            },
    {
        match self.category {
            Some(id) => Some(
                if id == 0 {
                    "general"
                } else if id == 1 {
                    "artist"
                } else if id == 3 {
                    "copyright"
                } else if id == 4 {
                    "character"
                } else if id == 5 {
                    "meta"
                } else {
                    "unknown"
                },
            ),
            None => None,
        }
    }
}

/// The id of the category that a site calls `cat`, where `lower` is the
/// lowercase form of `cat`: the id of a known name, else the id that `cat`
/// spells in decimal.
pub open spec fn category_for(lower: Seq<char>, cat: Seq<char>) -> Option<u8> {
    if lower == "general"@ || lower == "tag"@ {
        Some(0u8)
    } else if lower == "artist"@ {
        Some(1u8)
    } else if lower == "copyright"@ || lower == "series"@ {
        Some(3u8)
    } else if lower == "character"@ {
        Some(4u8)
    } else if lower == "meta"@ || lower == "metadata"@ {
        Some(5u8)
    } else {
        match parse_unsigned(cat, u8::MAX as nat) {
            Some(n) => Some(n as u8),
            None => None,
        }
    }
}

/// The id of the category that a site calls `cat`, given the lowercase form
/// of `cat`.
pub fn category_from(lower: &str, cat: &str) -> (r: Option<u8>)
    ensures
        r == category_for(lower@, cat@),
{
    let l = chars_of(lower);
    if spells(&l, "general") || spells(&l, "tag") {
        Some(0)
    } else if spells(&l, "artist") {
        Some(1)
    } else if spells(&l, "copyright") || spells(&l, "series") {
        Some(3)
    } else if spells(&l, "character") {
        Some(4)
    } else if spells(&l, "meta") || spells(&l, "metadata") {
        Some(5)
    } else {
        match parse_decimal_str(cat, 255) {
            Some(n) => Some(n as u8),
            None => None,
        }
    }
}

/// Parses category string to numeric ID. Names are matched whatever their
/// case.
pub fn parse_category(cat: &str) -> (r: Option<u8>)
    ensures
        r == category_for(lowercase(cat@), cat@),
{
    let lower = cat.to_lowercase();
    category_from(lower.as_str(), cat)
}

/// The post count that a label like `tag_name (12345)` carries: the number
/// between the last `(` and the last `)`, where they stand in that order
/// and hold a decimal number between them.
pub open spec fn label_count(label: Seq<char>) -> Option<u32> {
    let start = last_position(label, '(');
    let end = last_position(label, ')');
    if 0 <= start < end {
        match parse_unsigned(label.subrange(start + 1, end), u32::MAX as nat) {
            Some(n) => Some(n as u32),
            None => None,
        }
    } else {
        None
    }
}

/// Parses post count from a label like "tag_name (12345)".
pub fn parse_post_count_from_label(label: &str) -> (r: Option<u32>)
    ensures
        r == label_count(label@),
{
    let chars = chars_of(label);
    let start = match rfind_char(&chars, '(') {
        Some(i) => i,
        None => {
            return None;
        },
    };
    let end = match rfind_char(&chars, ')') {
        Some(i) => i,
        None => {
            return None;
        },
    };
    if start < end {
        match parse_decimal(&chars, start + 1, end, 0xffff_ffff) {
            Some(n) => Some(n as u32),
            None => None,
        }
    } else {
        None
    }
}

/// How a site names a suggestion's category: by id or by name.
#[derive(Debug, Clone, PartialEq, Eq)]
pub enum Category {
    /// The category's numeric id.
    Id(u8),
    /// The category's name, or its id spelled in decimal.
    Name(String),
}

/// One item of a site's answer to an autocomplete request.
#[derive(Debug, Clone, PartialEq, Eq)]
pub struct AutocompleteItem {
    /// The tag name.
    pub value: String,
    /// Display label (may include the post count).
    pub label: String,
    /// Tag category, where the site gives one.
    pub category: Option<Category>,
    /// Number of posts with this tag, where the site gives it.
    pub post_count: Option<u32>,
}

impl AutocompleteItem {
    /// The category id that the item carries.
    pub open spec fn category_id(self) -> Option<u8> {
        match self.category {
            Some(Category::Id(id)) => Some(id),
            Some(Category::Name(name)) => category_for(lowercase(name@), name@),
            None => None,
        }
    }

    /// The post count that the item carries: the count itself, or else the
    /// count in its label.
    pub open spec fn count(self) -> Option<u32> {
        match self.post_count {
            Some(n) => Some(n),
            None => label_count(self.label@),
        }
    }

    /// The suggestion of a site that gives count and category as fields.
    pub open spec fn as_given(self) -> TagSuggestionView {
        TagSuggestionView {
            name: self.value@,
            label: self.label@,
            post_count: self.post_count,
            category: self.category_id(),
        }
    }

    /// The suggestion of a site that may leave the count to the label.
    pub open spec fn with_label_count(self) -> TagSuggestionView {
        TagSuggestionView {
            name: self.value@,
            label: self.label@,
            post_count: self.count(),
            category: self.category_id(),
        }
    }

    /// The suggestion of a site that gives name and label only.
    pub open spec fn from_label(self) -> TagSuggestionView {
        TagSuggestionView {
            name: self.value@,
            label: self.label@,
            post_count: label_count(self.label@),
            category: None,
        }
    }

    fn read_category(&self) -> (r: Option<u8>)
        ensures
            r == self.category_id(),
    {
        match &self.category {
            Some(Category::Id(id)) => Some(*id),
            Some(Category::Name(name)) => parse_category(name.as_str()),
            None => None,
        }
    }

    /// Reads the item as a site gives it that has fields for count and
    /// category.
    pub fn to_suggestion(&self) -> (r: TagSuggestion)
        ensures
            r@ == self.as_given(),
    {
        TagSuggestion {
            name: self.value.clone(),
            label: self.label.clone(),
            post_count: self.post_count,
            category: self.read_category(),
        }
    }

    /// Reads the item, taking the count from the label where the item has
    /// none.
    pub fn to_suggestion_with_label_count(&self) -> (r: TagSuggestion)
        ensures
            r@ == self.with_label_count(),
    {
        let post_count = match self.post_count {
            Some(n) => Some(n),
            None => parse_post_count_from_label(self.label.as_str()),
        };
        TagSuggestion {
            name: self.value.clone(),
            label: self.label.clone(),
            post_count,
            category: self.read_category(),
        }
    }

    /// Reads name and label, and the count from the label.
    pub fn to_suggestion_from_label(&self) -> (r: TagSuggestion)
        ensures
            r@ == self.from_label(),
    {
        TagSuggestion {
            name: self.value.clone(),
            label: self.label.clone(),
            post_count: parse_post_count_from_label(self.label.as_str()),
            category: None,
        }
    }
}

/// How a site's items are read.
#[derive(Debug, Clone, Copy, PartialEq, Eq)]
pub enum Reading {
    /// Count and category are fields of the item.
    AsGiven,
    /// The count is a field or stands in the label; the category is a field.
    WithLabelCount,
    /// The count stands in the label; there is no category.
    FromLabel,
}

impl Reading {
    /// The suggestion that `item` is read as.
    pub open spec fn of(self, item: AutocompleteItem) -> TagSuggestionView {
        match self {
            Reading::AsGiven => item.as_given(),
            Reading::WithLabelCount => item.with_label_count(),
            Reading::FromLabel => item.from_label(),
        }
    }
}

/// The first `count` items of `items`, each read as `reading` says, in order.
pub fn read_items(items: &Vec<AutocompleteItem>, reading: Reading, count: usize) -> (r: Vec<
    TagSuggestion,
>)
    ensures
        r@.len() == if count <= items@.len() {
            count as nat
        } else {
            items@.len()
        },
        forall|i: int| 0 <= i < r@.len() ==> (#[trigger] r@[i])@ == reading.of(items@[i]),
{
    let n = if count <= items.len() {
        count
    } else {
        items.len()
    };
    let mut r: Vec<TagSuggestion> = Vec::new();
    let mut i: usize = 0;
    while i < n
        invariant
            i <= n <= items@.len(),
            r@.len() == i,
            forall|j: int| 0 <= j < i ==> (#[trigger] r@[j])@ == reading.of(items@[j]),
        decreases n - i,
    {
        let item = &items[i];
        let suggestion = match reading {
            Reading::AsGiven => item.to_suggestion(),
            Reading::WithLabelCount => item.to_suggestion_with_label_count(),
            Reading::FromLabel => item.to_suggestion_from_label(),
        };
        r.push(suggestion);
        i += 1;
    }
    r
}

/// Trait for clients that support tag autocomplete.
pub trait Autocomplete {
    /// The request that asks the site for tags that match the prefix `query`,
    /// `limit` of them at most where the site takes a limit.
    spec fn spec_autocomplete_request(query: Seq<char>, limit: u32) -> RequestView;

    /// The hint of the error that a status stands for, or `None` for a
    /// status that leaves the body to be read.
    spec fn spec_refusal(status: u16) -> Option<Seq<char>>;

    /// How the site's items are read.
    spec fn spec_reading() -> Reading;

    /// How many of `count` items are read when `limit` suggestions were
    /// asked for.
    spec fn spec_kept(count: nat, limit: u32) -> nat;

    /// The request that asks the site for tags that match the prefix `query`,
    /// `limit` of them at most where the site takes a limit.
    fn autocomplete_request(query: &str, limit: u32) -> (r: Request)
        ensures
            r@ == Self::spec_autocomplete_request(query@, limit),
    ;

    /// What the status of an answer to [`Autocomplete::autocomplete_request`]
    /// means: go on to read the body, or [`BooruError::Unauthorized`].
    fn autocomplete_response(status: u16) -> (r: Result<(), BooruError>)
        ensures
            match r {
                Ok(_) => Self::spec_refusal(status) is None,
                Err(BooruError::Unauthorized(hint)) => Self::spec_refusal(status) == Some(hint@),
                Err(_) => false,
            },
    ;

    /// The suggestions that the items of an answer stand for, in order.
    fn suggestions(items: &Vec<AutocompleteItem>, limit: u32) -> (r: Vec<TagSuggestion>)
        ensures
            r@.len() == Self::spec_kept(items@.len(), limit),
            r@.len() <= items@.len(),
            forall|i: int|
                0 <= i < r@.len() ==> (#[trigger] r@[i])@ == Self::spec_reading().of(items@[i]),
    ;
}

/// The lesser of a number of items and a limit.
pub open spec fn at_most(count: nat, limit: u32) -> nat {
    if limit <= count {
        limit as nat
    } else {
        count
    }
}

} // verus!
