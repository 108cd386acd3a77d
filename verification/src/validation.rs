//! Tag validation for booru queries.
//!
//! A tag is inspected for common mistakes before it is sent anywhere. Only
//! the empty tag is invalid; everything else is reported as a warning and,
//! where a better spelling is known, with a normalized form.

use vstd::prelude::*;
use std::borrow::Cow;
use crate::decimal::{decimal, push_decimal};
use crate::error::BooruError;
use crate::text::{
    chars_of, contains_char, contains_seq, contains_str, copy_range, find_char, position,
    replace_char, replaced, same_chars, spells, string_of, trim, trimmed,
};

verus! {

/// Whether `c` is alphabetic or numeric in Unicode's sense, as
/// `char::is_alphanumeric` decides it.
pub uninterp spec fn is_alphanumeric(c: char) -> bool;

/// `char::is_alphanumeric`: its answer depends on the character alone.
pub assume_specification[ char::is_alphanumeric ](c: char) -> (r: bool)
    ensures
        r == is_alphanumeric(c),
;

/// What `format!("{:?}", chars)` writes for a vector of these characters.
pub uninterp spec fn debug_list(chars: Seq<char>) -> Seq<char>;

/// `format!` with `{:?}`, that is `Debug` for `Vec<char>`: the rendering is
/// a function of the characters alone.
#[verifier::external_body]
fn format_debug_list(chars: &Vec<char>) -> (s: String)
    ensures
        s@ == debug_list(chars@),
{
    format!("{:?}", chars)
}

/// Warning types for tag validation.
#[derive(Debug, Clone, PartialEq, Eq)]
pub enum TagWarning {
    /// Tag contains spaces that should be underscores.
    SpacesFound {
        /// Original tag with spaces.
        original: String,
        /// Suggested replacement with underscores.
        suggested: String,
    },
    /// Tag has leading/trailing whitespace.
    LeadingTrailingWhitespace,
    /// Tag is empty.
    EmptyTag,
    /// Tag contains consecutive underscores.
    ConsecutiveUnderscores,
    /// Tag is very long (might hit URL limits).
    VeryLongTag {
        /// Length of the tag, in characters.
        length: usize,
    },
    /// Tag contains unusual characters.
    UnusualCharacters {
        /// Characters found that are unusual.
        chars: Vec<char>,
    },
    /// Meta tag may not work on all boorus.
    UnsupportedMetaTag {
        /// The meta tag prefix.
        prefix: String,
    },
}

/// The mathematical value of a [`TagWarning`].
pub enum TagWarningView {
    SpacesFound { original: Seq<char>, suggested: Seq<char> },
    LeadingTrailingWhitespace,
    EmptyTag,
    ConsecutiveUnderscores,
    VeryLongTag { length: nat },
    UnusualCharacters { chars: Seq<char> },
    UnsupportedMetaTag { prefix: Seq<char> },
}

impl View for TagWarning {
    type V = TagWarningView;

    open spec fn view(&self) -> TagWarningView {
        match *self {
            TagWarning::SpacesFound { original, suggested } => TagWarningView::SpacesFound {
                original: original@,
                suggested: suggested@,
            },
            TagWarning::LeadingTrailingWhitespace => TagWarningView::LeadingTrailingWhitespace,
            TagWarning::EmptyTag => TagWarningView::EmptyTag,
            TagWarning::ConsecutiveUnderscores => TagWarningView::ConsecutiveUnderscores,
            TagWarning::VeryLongTag { length } => TagWarningView::VeryLongTag {
                length: length as nat,
            },
            TagWarning::UnusualCharacters { chars } => TagWarningView::UnusualCharacters {
                chars: chars@,
            },
            TagWarning::UnsupportedMetaTag { prefix } => TagWarningView::UnsupportedMetaTag {
                prefix: prefix@,
            },
        }
    }
}

impl TagWarningView {
    /// The sentence that describes the warning.
    pub open spec fn message(self) -> Seq<char> {
        match self {
            TagWarningView::SpacesFound { original, suggested } => "Tag contains spaces: '"@
                + original + "'. Did you mean '"@ + suggested + "'?"@,
            TagWarningView::LeadingTrailingWhitespace => "Tag has leading or trailing whitespace"@,
            TagWarningView::EmptyTag => "Tag is empty"@,
            TagWarningView::ConsecutiveUnderscores => "Tag contains consecutive underscores"@,
            TagWarningView::VeryLongTag { length } => "Tag is very long ("@ + decimal(length)
                + " chars), may cause issues"@,
            TagWarningView::UnusualCharacters { chars } => "Tag contains unusual characters: "@
                + debug_list(chars),
            TagWarningView::UnsupportedMetaTag { prefix } => "Meta tag '"@ + prefix
                + ":' may not be supported on all booru sites"@,
        }
    }
}

impl TagWarning {
    /// The sentence that describes the warning.
    pub fn to_string(&self) -> (s: String)
        ensures
            s@ == self@.message(),
    {
        let mut s = String::new();
        match self {
            TagWarning::SpacesFound { original, suggested } => {
                s.append("Tag contains spaces: '");
                s.append(original.as_str());
                s.append("'. Did you mean '");
                s.append(suggested.as_str());
                s.append("'?");
            },
            TagWarning::LeadingTrailingWhitespace => {
                s.append("Tag has leading or trailing whitespace");
            },
            TagWarning::EmptyTag => {
                s.append("Tag is empty");
            },
            TagWarning::ConsecutiveUnderscores => {
                s.append("Tag contains consecutive underscores");
            },
            TagWarning::VeryLongTag { length } => {
                s.append("Tag is very long (");
                push_decimal(&mut s, *length as u64);
                s.append(" chars), may cause issues");
            },
            TagWarning::UnusualCharacters { chars } => {
                s.append("Tag contains unusual characters: ");
                let list = format_debug_list(chars);
                s.append(list.as_str());
            },
            TagWarning::UnsupportedMetaTag { prefix } => {
                s.append("Meta tag '");
                s.append(prefix.as_str());
                s.append(":' may not be supported on all booru sites");
            },
        }
        assert(s@ =~= self@.message());
        s
    }
}

/// The mathematical values of a list of warnings.
pub open spec fn warning_views(warnings: Seq<TagWarning>) -> Seq<TagWarningView> {
    Seq::new(warnings.len(), |i: int| warnings[i]@)
}

fn push_warning(warnings: &mut Vec<TagWarning>, warning: TagWarning)
    ensures
        final(warnings)@ == old(warnings)@.push(warning),
        warning_views(final(warnings)@) == warning_views(old(warnings)@).push(warning@),
{
    warnings.push(warning);
    assert(warning_views(warnings@) =~= warning_views(old(warnings)@).push(warning@));
}

/// Result of validating a tag.
#[derive(Debug, Clone)]
pub struct TagValidation {
    /// The original tag.
    pub original: String,
    /// The normalized/fixed tag, if applicable.
    pub normalized: Option<String>,
    /// Warnings about potential issues.
    pub warnings: Vec<TagWarning>,
    /// Whether the tag is valid for use.
    pub is_valid: bool,
}

/// The mathematical value of a [`TagValidation`].
pub struct TagValidationView {
    pub original: Seq<char>,
    pub normalized: Option<Seq<char>>,
    pub warnings: Seq<TagWarningView>,
    pub is_valid: bool,
}

impl View for TagValidation {
    type V = TagValidationView;

    open spec fn view(&self) -> TagValidationView {
        TagValidationView {
            original: self.original@,
            normalized: match self.normalized {
                Some(n) => Some(n@),
                None => None,
            },
            warnings: warning_views(self.warnings@),
            is_valid: self.is_valid,
        }
    }
}

impl TagValidationView {
    /// The tag to use: the normalized form where there is one.
    pub open spec fn tag(self) -> Seq<char> {
        match self.normalized {
            Some(n) => n,
            None => self.original,
        }
    }
}

impl TagValidation {
    /// Returns true if validation produced any warnings.
    #[must_use]
    pub fn has_warnings(&self) -> (r: bool)
        ensures
            r == (self@.warnings.len() > 0),
    {
        self.warnings.len() > 0
    }

    /// Gets the tag to use (normalized if available, otherwise original).
    #[must_use]
    pub fn tag(&self) -> (r: &str)
        ensures
            r@ == self@.tag(),
    {
        match &self.normalized {
            Some(n) => n.as_str(),
            None => self.original.as_str(),
        }
    }
}

/// The punctuation that tags ordinarily hold.
pub open spec fn is_tag_punctuation(c: char) -> bool {
    c == '_' || c == '-' || c == ':' || c == '(' || c == ')' || c == '<' || c == '>' || c == '='
        || c == '.' || c == '*' || c == '?'
}

/// A character is unusual in a tag when it is neither alphanumeric nor
/// ordinary tag punctuation.
pub open spec fn is_unusual(c: char) -> bool {
    !is_alphanumeric(c) && !is_tag_punctuation(c)
}

/// The unusual characters of `s`, in the order and number in which they occur.
pub open spec fn unusual_chars(s: Seq<char>) -> Seq<char>
    decreases s.len(),
{
    if s.len() == 0 {
        Seq::empty()
    } else {
        let rest = unusual_chars(s.subrange(0, s.len() - 1));
        if is_unusual(s[s.len() - 1]) {
            rest.push(s[s.len() - 1])
        } else {
            rest
        }
    }
}

/// Meta tag prefixes that work on most boorus.
pub open spec fn is_common_meta(p: Seq<char>) -> bool {
    p == "rating"@ || p == "score"@ || p == "order"@ || p == "sort"@ || p == "user"@ || p
        == "height"@ || p == "width"@ || p == "id"@ || p == "md5"@ || p == "source"@ || p
        == "parent"@ || p == "pool"@
}

/// Meta tag prefixes that only Danbooru understands.
pub open spec fn is_danbooru_meta(p: Seq<char>) -> bool {
    p == "pixiv_id"@ || p == "favcount"@ || p == "gentags"@ || p == "arttags"@ || p == "chartags"@
        || p == "copytags"@ || p == "approver"@ || p == "commenter"@ || p == "noter"@ || p
        == "flagger"@
}

/// The text before the first colon of `s`, where `s` holds a colon.
pub open spec fn meta_prefix(s: Seq<char>) -> Option<Seq<char>> {
    if position(s, ':') < s.len() {
        Some(s.subrange(0, position(s, ':')))
    } else {
        None
    }
}

/// Whether `s` starts with a meta prefix that is unlikely to be portable.
pub open spec fn has_unportable_prefix(s: Seq<char>) -> bool {
    match meta_prefix(s) {
        Some(p) => !is_common_meta(p) && is_danbooru_meta(p),
        None => false,
    }
}

/// The longest tag, in characters, that draws no length warning.
pub const MAX_TAG_LENGTH: usize = 100;

/// The warnings that the trimmed, non-empty tag `w` draws by itself.
pub open spec fn content_warnings(w: Seq<char>) -> Seq<TagWarningView> {
    (if w.contains(' ') {
        seq![TagWarningView::SpacesFound { original: w, suggested: replace_char(w, ' ', '_') }]
    } else {
        seq![]
    }) + (if contains_seq(w, "__"@) {
        seq![TagWarningView::ConsecutiveUnderscores]
    } else {
        seq![]
    }) + (if w.len() > MAX_TAG_LENGTH {
        seq![TagWarningView::VeryLongTag { length: w.len() }]
    } else {
        seq![]
    }) + (if unusual_chars(w).len() > 0 {
        seq![TagWarningView::UnusualCharacters { chars: unusual_chars(w) }]
    } else {
        seq![]
    }) + (if has_unportable_prefix(w) {
        seq![TagWarningView::UnsupportedMetaTag { prefix: meta_prefix(w)->Some_0 }]
    } else {
        seq![]
    })
}

/// The warnings that `tag` draws, in the order in which they are reported.
pub open spec fn warnings_of(tag: Seq<char>) -> Seq<TagWarningView> {
    if tag.len() == 0 {
        seq![TagWarningView::EmptyTag]
    } else {
        (if trimmed(tag) != tag {
            seq![TagWarningView::LeadingTrailingWhitespace]
        } else {
            seq![]
        }) + content_warnings(trimmed(tag))
    }
}

/// The better spelling of `tag`, where one is known: trimmed, and with
/// underscores for the spaces that are left.
pub open spec fn normalized_of(tag: Seq<char>) -> Option<Seq<char>> {
    if tag.len() == 0 {
        None
    } else if trimmed(tag).contains(' ') {
        Some(replace_char(trimmed(tag), ' ', '_'))
    } else if trimmed(tag) != tag {
        Some(trimmed(tag))
    } else {
        None
    }
}

/// What validating `tag` gives.
pub open spec fn validation_of(tag: Seq<char>) -> TagValidationView {
    TagValidationView {
        original: tag,
        normalized: normalized_of(tag),
        warnings: warnings_of(tag),
        is_valid: tag.len() != 0,
    }
}

fn is_tag_punctuation_char(c: char) -> (r: bool)
    ensures
        r == is_tag_punctuation(c),
{
    c == '_' || c == '-' || c == ':' || c == '(' || c == ')' || c == '<' || c == '>' || c == '='
        || c == '.' || c == '*' || c == '?'
}

fn collect_unusual(w: &Vec<char>) -> (r: Vec<char>)
    ensures
        r@ == unusual_chars(w@),
{
    let mut r: Vec<char> = Vec::new();
    let mut i: usize = 0;
    assert(w@.subrange(0, 0) =~= Seq::<char>::empty());
    while i < w.len()
        invariant
            i <= w.len(),
            r@ == unusual_chars(w@.subrange(0, i as int)),
        decreases w.len() - i,
    {
        let c = w[i];
        assert(w@.subrange(0, i + 1).subrange(0, i as int) == w@.subrange(0, i as int));
        if !c.is_alphanumeric() && !is_tag_punctuation_char(c) {
            r.push(c);
        }
        i += 1;
    }
    assert(w@.subrange(0, w.len() as int) == w@);
    r
}

fn is_common_meta_prefix(p: &Vec<char>) -> (r: bool)
    ensures
        r == is_common_meta(p@),
{
    spells(p, "rating") || spells(p, "score") || spells(p, "order") || spells(p, "sort") || spells(
        p,
        "user",
    ) || spells(p, "height") || spells(p, "width") || spells(p, "id") || spells(p, "md5")
        || spells(p, "source") || spells(p, "parent") || spells(p, "pool")
}

fn is_danbooru_meta_prefix(p: &Vec<char>) -> (r: bool)
    ensures
        r == is_danbooru_meta(p@),
{
    spells(p, "pixiv_id") || spells(p, "favcount") || spells(p, "gentags") || spells(p, "arttags")
        || spells(p, "chartags") || spells(p, "copytags") || spells(p, "approver") || spells(
        p,
        "commenter",
    ) || spells(p, "noter") || spells(p, "flagger")
}

fn unportable_prefix(w: &Vec<char>) -> (r: Option<String>)
    ensures
        r is Some == has_unportable_prefix(w@),
        r is Some ==> r->Some_0@ == meta_prefix(w@)->Some_0,
{
    match find_char(w, ':') {
        Some(colon) => {
            let p = copy_range(w, 0, colon);
            if !is_common_meta_prefix(&p) && is_danbooru_meta_prefix(&p) {
                Some(string_of(&p))
            } else {
                None
            }
        },
        None => None,
    }
}

fn content_warnings_into(w: &Vec<char>, warnings: &mut Vec<TagWarning>) -> (suggested: Option<
    String,
>)
    ensures
        warning_views(final(warnings)@) == warning_views(old(warnings)@) + content_warnings(w@),
        match suggested {
            Some(s) => w@.contains(' ') && s@ == replace_char(w@, ' ', '_'),
            None => !w@.contains(' '),
        },
{
    let ghost s0 = warning_views(warnings@);
    let mut suggested: Option<String> = None;
    if contains_char(w, ' ') {
        let fixed = replaced(w, ' ', '_');
        push_warning(
            warnings,
            TagWarning::SpacesFound { original: string_of(w), suggested: string_of(&fixed) },
        );
        suggested = Some(string_of(&fixed));
    }
    let ghost s1 = warning_views(warnings@);
    if contains_str(w, "__") {
        push_warning(warnings, TagWarning::ConsecutiveUnderscores);
    }
    let ghost s2 = warning_views(warnings@);
    if w.len() > MAX_TAG_LENGTH {
        push_warning(warnings, TagWarning::VeryLongTag { length: w.len() });
    }
    let ghost s3 = warning_views(warnings@);
    let unusual = collect_unusual(w);
    if unusual.len() > 0 {
        push_warning(warnings, TagWarning::UnusualCharacters { chars: unusual });
    }
    let ghost s4 = warning_views(warnings@);
    match unportable_prefix(w) {
        Some(prefix) => {
            push_warning(warnings, TagWarning::UnsupportedMetaTag { prefix });
        },
        None => {},
    }
    proof {
        lemma_content_warnings(w@, s0, s1, s2, s3, s4, warning_views(warnings@));
    }
    suggested
}

proof fn lemma_content_warnings(
    w: Seq<char>,
    s0: Seq<TagWarningView>,
    s1: Seq<TagWarningView>,
    s2: Seq<TagWarningView>,
    s3: Seq<TagWarningView>,
    s4: Seq<TagWarningView>,
    s5: Seq<TagWarningView>,
)
    requires
        s1 == if w.contains(' ') {
            s0.push(
                TagWarningView::SpacesFound { original: w, suggested: replace_char(w, ' ', '_') },
            )
        } else {
            s0
        },
        s2 == if contains_seq(w, "__"@) {
            s1.push(TagWarningView::ConsecutiveUnderscores)
        } else {
            s1
        },
        s3 == if w.len() > MAX_TAG_LENGTH {
            s2.push(TagWarningView::VeryLongTag { length: w.len() })
        } else {
            s2
        },
        s4 == if unusual_chars(w).len() > 0 {
            s3.push(TagWarningView::UnusualCharacters { chars: unusual_chars(w) })
        } else {
            s3
        },
        s5 == if has_unportable_prefix(w) {
            s4.push(TagWarningView::UnsupportedMetaTag { prefix: meta_prefix(w)->Some_0 })
        } else {
            s4
        },
    ensures
        s5 == s0 + content_warnings(w),
{
    assert(s5 =~= s0 + content_warnings(w));
}

/// Validates a single tag and returns a validation result.
///
/// The result is invalid for the empty tag only. Every other finding is a
/// warning: leading or trailing whitespace, spaces where underscores belong,
/// consecutive underscores, a length above [`MAX_TAG_LENGTH`] characters,
/// unusual characters, and meta prefixes that only one site understands.
#[must_use]
pub fn validate_tag(tag: &str) -> (r: TagValidation)
    ensures
        r@ == validation_of(tag@),
        r.is_valid <==> tag@.len() != 0,
{
    let chars = chars_of(tag);
    if chars.len() == 0 {
        let mut warnings: Vec<TagWarning> = Vec::new();
        push_warning(&mut warnings, TagWarning::EmptyTag);
        let r = TagValidation {
            original: string_of(&chars),
            normalized: None,
            warnings,
            is_valid: false,
        };
        assert(r@.warnings =~= warnings_of(tag@));
        return r;
    }
    let mut warnings: Vec<TagWarning> = Vec::new();
    let mut normalized: Option<String> = None;
    let w = trim(&chars);
    if !same_chars(&w, &chars) {
        push_warning(&mut warnings, TagWarning::LeadingTrailingWhitespace);
        normalized = Some(string_of(&w));
    }
    let ghost head = warning_views(warnings@);
    assert(head =~= if trimmed(tag@) != tag@ {
        seq![TagWarningView::LeadingTrailingWhitespace]
    } else {
        seq![]
    });
    match content_warnings_into(&w, &mut warnings) {
        Some(s) => {
            normalized = Some(s);
        },
        None => {},
    }
    let r = TagValidation { original: string_of(&chars), normalized, warnings, is_valid: true };
    assert(r@.warnings =~= warnings_of(tag@));
    r
}

/// Validates a tag strictly: every warning is fatal. Returns the tag if it
/// draws no warning.
///
/// # Errors
///
/// Returns [`BooruError::InvalidTag`] if the tag draws a warning, with the
/// tag and, as the reason, the first warning's sentence.
pub fn validate_tag_strict(tag: &str) -> (r: Result<Cow<'_, str>, BooruError>)
    ensures
        match r {
            Ok(t) => warnings_of(tag@).len() == 0 && t@ == tag@,
            Err(BooruError::InvalidTag { tag: t, reason }) => warnings_of(tag@).len() > 0 && t@
                == tag@ && reason@ == warnings_of(tag@)[0].message(),
            Err(_) => false,
        },
{
    let result = validate_tag(tag);
    if result.warnings.len() > 0 {
        assert(result@.warnings[0] == result.warnings@[0]@);
        let reason = result.warnings[0].to_string();
        return Err(BooruError::InvalidTag { tag: tag.to_owned(), reason });
    }
    Ok(Cow::Borrowed(tag))
}

/// Validates every tag of `tags` strictly and returns the tags, in order.
///
/// # Errors
///
/// Returns [`BooruError::InvalidTag`] for the first tag that draws a warning.
pub fn validate_tags(tags: &[&str]) -> (r: Result<Vec<String>, BooruError>)
    ensures
        match r {
            Ok(v) => {
                &&& v@.len() == tags@.len()
                &&& forall|i: int|
                    0 <= i < tags@.len() ==> warnings_of((#[trigger] tags@[i])@).len() == 0
                        && v@[i]@ == tags@[i]@
            },
            Err(BooruError::InvalidTag { tag, reason }) => exists|i: int|
                {
                    &&& 0 <= i < tags@.len()
                    &&& warnings_of((#[trigger] tags@[i])@).len() > 0
                    &&& forall|j: int| 0 <= j < i ==> warnings_of((#[trigger] tags@[j])@).len() == 0
                    &&& tag@ == tags@[i]@
                    &&& reason@ == warnings_of(tags@[i]@)[0].message()
                },
            Err(_) => false,
        },
{
    let mut out: Vec<String> = Vec::new();
    let mut i: usize = 0;
    while i < tags.len()
        invariant
            i <= tags@.len(),
            out@.len() == i,
            forall|j: int|
                0 <= j < i ==> warnings_of((#[trigger] tags@[j])@).len() == 0 && out@[j]@
                    == tags@[j]@,
        decreases tags@.len() - i,
    {
        let tag: &str = tags[i];
        assert(tag@ == tags@[i as int]@);
        match validate_tag_strict(tag) {
            Ok(c) => {
                let owned: String = match c {
                    Cow::Owned(t) => t,
                    Cow::Borrowed(t) => t.to_owned(),
                };
                out.push(owned);
            },
            Err(e) => {
                assert(warnings_of(tags@[i as int]@).len() > 0);
                return Err(e);
            },
        }
        i += 1;
    }
    Ok(out)
}

} // verus!
