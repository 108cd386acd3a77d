//! Data models for booru API responses.
//!
//! This module contains the post and rating types for each supported booru
//! site, as well as a common [`Post`] trait that provides a unified interface.

use vstd::prelude::*;
use crate::text::optional_view;

pub mod danbooru;
pub mod gelbooru;
pub mod rule34;
pub mod safebooru;

verus! {

/// The text of an optional string, where an empty string counts as absent.
pub open spec fn non_empty(s: Seq<char>) -> Option<Seq<char>> {
    if s.len() == 0 {
        None
    } else {
        Some(s)
    }
}

/// The text behind an optional string slice.
pub open spec fn str_view(s: Option<&str>) -> Option<Seq<char>> {
    match s {
        Some(t) => Some(t@),
        None => None,
    }
}

fn as_deref(s: &Option<String>) -> (r: Option<&str>)
    ensures
        str_view(r) == optional_view(*s),
{
    match s {
        Some(t) => Some(t.as_str()),
        None => None,
    }
}

fn unless_empty(s: &String) -> (r: Option<&str>)
    ensures
        str_view(r) == non_empty(s@),
{
    if s.as_str().is_empty() {
        None
    } else {
        Some(s.as_str())
    }
}

/// The signed number with the same 32 bits as `score`: `score` itself up to
/// `i32::MAX`, and `score - 2^32` above it.
pub open spec fn signed_score(score: u32) -> i32 {
    if score <= i32::MAX {
        score as i32
    } else {
        (score - 0x1_0000_0000) as i32
    }
}

fn to_signed(score: u32) -> (r: i32)
    ensures
        r == signed_score(score),
{
    if score <= 0x7fff_ffff {
        score as i32
    } else {
        (score as i64 - 0x1_0000_0000) as i32
    }
}

/// Common interface for post types across different booru sites.
///
/// This trait provides access to the fields that are common across all
/// booru post types, allowing for generic code that works with any booru.
pub trait Post {
    /// The unique identifier of this post.
    spec fn spec_id(&self) -> u32;

    /// The width of the image in pixels.
    spec fn spec_width(&self) -> u32;

    /// The height of the image in pixels.
    spec fn spec_height(&self) -> u32;

    /// The URL to the full-size image, if available.
    spec fn spec_file_url(&self) -> Option<Seq<char>>;

    /// The tags associated with this post as a single string.
    spec fn spec_tags(&self) -> Seq<char>;

    /// The post's score, if available.
    spec fn spec_score(&self) -> Option<i32>;

    /// The MD5 hash of the image, if available.
    spec fn spec_md5(&self) -> Option<Seq<char>>;

    /// The source URL for the image, if available.
    spec fn spec_source(&self) -> Option<Seq<char>>;

    /// Returns the unique identifier for this post.
    fn id(&self) -> (r: u32)
        ensures
            r == self.spec_id(),
    ;

    /// Returns the width of the image in pixels.
    fn width(&self) -> (r: u32)
        ensures
            r == self.spec_width(),
    ;

    /// Returns the height of the image in pixels.
    fn height(&self) -> (r: u32)
        ensures
            r == self.spec_height(),
    ;

    /// Returns the URL to the full-size image, if available.
    fn file_url(&self) -> (r: Option<&str>)
        ensures
            str_view(r) == self.spec_file_url(),
    ;

    /// Returns the tags associated with this post as a single string.
    fn tags(&self) -> (r: &str)
        ensures
            r@ == self.spec_tags(),
    ;

    /// Returns the post's score/rating value, if available.
    fn score(&self) -> (r: Option<i32>)
        ensures
            r == self.spec_score(),
    ;

    /// Returns the MD5 hash of the image, if available.
    fn md5(&self) -> (r: Option<&str>)
        ensures
            str_view(r) == self.spec_md5(),
    ;

    /// Returns the source URL for the image, if available.
    fn source(&self) -> (r: Option<&str>)
        ensures
            str_view(r) == self.spec_source(),
    ;
}

impl Post for danbooru::DanbooruPost {
    open spec fn spec_id(&self) -> u32 {
        self.id
    }

    open spec fn spec_width(&self) -> u32 {
        self.image_width
    }

    open spec fn spec_height(&self) -> u32 {
        self.image_height
    }

    open spec fn spec_file_url(&self) -> Option<Seq<char>> {
        optional_view(self.file_url)
    }

    open spec fn spec_tags(&self) -> Seq<char> {
        self.tag_string@
    }

    open spec fn spec_score(&self) -> Option<i32> {
        Some(self.score)
    }

    open spec fn spec_md5(&self) -> Option<Seq<char>> {
        optional_view(self.md5)
    }

    /// An empty source counts as none.
    open spec fn spec_source(&self) -> Option<Seq<char>> {
        non_empty(self.source@)
    }

    fn id(&self) -> (r: u32) {
        self.id
    }

    fn width(&self) -> (r: u32) {
        self.image_width
    }

    fn height(&self) -> (r: u32) {
        self.image_height
    }

    fn file_url(&self) -> (r: Option<&str>) {
        as_deref(&self.file_url)
    }

    fn tags(&self) -> (r: &str) {
        self.tag_string.as_str()
    }

    fn score(&self) -> (r: Option<i32>) {
        Some(self.score)
    }

    fn md5(&self) -> (r: Option<&str>) {
        as_deref(&self.md5)
    }

    fn source(&self) -> (r: Option<&str>) {
        unless_empty(&self.source)
    }
}

impl Post for gelbooru::GelbooruPost {
    open spec fn spec_id(&self) -> u32 {
        self.id
    }

    open spec fn spec_width(&self) -> u32 {
        self.width
    }

    open spec fn spec_height(&self) -> u32 {
        self.height
    }

    open spec fn spec_file_url(&self) -> Option<Seq<char>> {
        Some(self.file_url@)
    }

    open spec fn spec_tags(&self) -> Seq<char> {
        self.tags@
    }

    /// The score as a signed number of the same 32 bits.
    open spec fn spec_score(&self) -> Option<i32> {
        Some(signed_score(self.score))
    }

    open spec fn spec_md5(&self) -> Option<Seq<char>> {
        Some(self.md5@)
    }

    /// An empty source counts as none.
    open spec fn spec_source(&self) -> Option<Seq<char>> {
        non_empty(self.source@)
    }

    fn id(&self) -> (r: u32) {
        self.id
    }

    fn width(&self) -> (r: u32) {
        self.width
    }

    fn height(&self) -> (r: u32) {
        self.height
    }

    fn file_url(&self) -> (r: Option<&str>) {
        Some(self.file_url.as_str())
    }

    fn tags(&self) -> (r: &str) {
        self.tags.as_str()
    }

    fn score(&self) -> (r: Option<i32>) {
        Some(to_signed(self.score))
    }

    fn md5(&self) -> (r: Option<&str>) {
        Some(self.md5.as_str())
    }

    fn source(&self) -> (r: Option<&str>) {
        unless_empty(&self.source)
    }
}

impl Post for safebooru::SafebooruPost {
    open spec fn spec_id(&self) -> u32 {
        self.id
    }

    open spec fn spec_width(&self) -> u32 {
        self.width
    }

    open spec fn spec_height(&self) -> u32 {
        self.height
    }

    open spec fn spec_file_url(&self) -> Option<Seq<char>> {
        Some(self.file_url@)
    }

    open spec fn spec_tags(&self) -> Seq<char> {
        self.tags@
    }

    /// The score, where there is one, as a signed number of the same 32 bits.
    open spec fn spec_score(&self) -> Option<i32> {
        match self.score {
            Some(s) => Some(signed_score(s)),
            None => None,
        }
    }

    open spec fn spec_md5(&self) -> Option<Seq<char>> {
        Some(self.hash@)
    }

    /// An empty source counts as none.
    open spec fn spec_source(&self) -> Option<Seq<char>> {
        non_empty(self.source@)
    }

    fn id(&self) -> (r: u32) {
        self.id
    }

    fn width(&self) -> (r: u32) {
        self.width
    }

    fn height(&self) -> (r: u32) {
        self.height
    }

    fn file_url(&self) -> (r: Option<&str>) {
        Some(self.file_url.as_str())
    }

    fn tags(&self) -> (r: &str) {
        self.tags.as_str()
    }

    fn score(&self) -> (r: Option<i32>) {
        match self.score {
            Some(s) => Some(to_signed(s)),
            None => None,
        }
    }

    fn md5(&self) -> (r: Option<&str>) {
        Some(self.hash.as_str())
    }

    fn source(&self) -> (r: Option<&str>) {
        unless_empty(&self.source)
    }
}

impl Post for rule34::Rule34Post {
    open spec fn spec_id(&self) -> u32 {
        self.id
    }

    open spec fn spec_width(&self) -> u32 {
        self.width
    }

    open spec fn spec_height(&self) -> u32 {
        self.height
    }

    open spec fn spec_file_url(&self) -> Option<Seq<char>> {
        Some(self.file_url@)
    }

    open spec fn spec_tags(&self) -> Seq<char> {
        self.tags@
    }

    open spec fn spec_score(&self) -> Option<i32> {
        Some(self.score)
    }

    /// An empty hash counts as none.
    open spec fn spec_md5(&self) -> Option<Seq<char>> {
        non_empty(self.hash@)
    }

    /// An empty source counts as none.
    open spec fn spec_source(&self) -> Option<Seq<char>> {
        non_empty(self.source@)
    }

    fn id(&self) -> (r: u32) {
        self.id
    }

    fn width(&self) -> (r: u32) {
        self.width
    }

    fn height(&self) -> (r: u32) {
        self.height
    }

    fn file_url(&self) -> (r: Option<&str>) {
        Some(self.file_url.as_str())
    }

    fn tags(&self) -> (r: &str) {
        self.tags.as_str()
    }

    fn score(&self) -> (r: Option<i32>) {
        Some(self.score)
    }

    fn md5(&self) -> (r: Option<&str>) {
        unless_empty(&self.hash)
    }

    fn source(&self) -> (r: Option<&str>) {
        unless_empty(&self.source)
    }
}

} // verus!
