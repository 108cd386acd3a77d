//! Image download planning.
//!
//! Where a download is saved, under which name, and whether it is made at
//! all: the decisions of a download, without the transfer itself.

use vstd::prelude::*;
use crate::decimal::{decimal, decimal_string};
use crate::error::BooruError;
use crate::model::{str_view, Post};
use crate::text::{
    chars_of, copy_range, find_char, last_position, optional_view, position, replace_all,
    replaced_all, rfind_char, string_of, text,
};

verus! {

/// Options for configuring downloads.
#[derive(Debug, Clone)]
pub struct DownloadOptions {
    /// Whether to overwrite existing files.
    pub overwrite: bool,
    /// Custom filename template. Use `{id}`, `{md5}`, `{ext}` as placeholders.
    pub filename_template: Option<String>,
    /// Create subdirectories based on rating.
    pub organize_by_rating: bool,
}

/// The mathematical value of [`DownloadOptions`].
pub struct DownloadOptionsView {
    pub overwrite: bool,
    pub filename_template: Option<Seq<char>>,
    pub organize_by_rating: bool,
}

impl View for DownloadOptions {
    type V = DownloadOptionsView;

    open spec fn view(&self) -> DownloadOptionsView {
        DownloadOptionsView {
            overwrite: self.overwrite,
            filename_template: optional_view(self.filename_template),
            organize_by_rating: self.organize_by_rating,
        }
    }
}

impl Default for DownloadOptions {
    /// Existing files are kept, filenames follow the post's id, and
    /// everything is saved into one directory.
    fn default() -> (r: Self)
        ensures
            r@ == (DownloadOptionsView {
                overwrite: false,
                filename_template: None,
                organize_by_rating: false,
            }),
    {
        DownloadOptions { overwrite: false, filename_template: None, organize_by_rating: false }
    }
}

impl DownloadOptions {
    /// Create options that overwrite existing files.
    #[must_use]
    pub fn overwrite(self) -> (r: Self)
        ensures
            r@ == (DownloadOptionsView { overwrite: true, ..self@ }),
    {
        let mut o = self;
        o.overwrite = true;
        o
    }

    /// Set a custom filename template.
    ///
    /// Available placeholders:
    /// - `{id}` - Post ID
    /// - `{md5}` - MD5 hash (if available)
    /// - `{ext}` - File extension
    #[must_use]
    pub fn filename(self, template: &str) -> (r: Self)
        ensures
            r@ == (DownloadOptionsView { filename_template: Some(template@), ..self@ }),
    {
        let mut o = self;
        o.filename_template = Some(text(template));
        o
    }

    /// Organize downloads into subdirectories by rating.
    #[must_use]
    pub fn organize_by_rating(self) -> (r: Self)
        ensures
            r@ == (DownloadOptionsView { organize_by_rating: true, ..self@ }),
    {
        let mut o = self;
        o.organize_by_rating = true;
        o
    }

    /// Whether a download is skipped: its file exists and existing files
    /// are not overwritten.
    pub fn skips(&self, exists: bool) -> (r: bool)
        ensures
            r == (exists && !self@.overwrite),
    {
        exists && !self.overwrite
    }

    /// The name under which the file of a post is saved, for a post that is
    /// downloaded from `url`.
    ///
    /// With a template, the template with `{id}` replaced by the post's id,
    /// then `{md5}` by its MD5 hash (`unknown` where it has none), then
    /// `{ext}` by the extension of `url`. Without one, the id and the
    /// extension with a dot between them.
    pub fn generate_filename<P: Post>(&self, post: &P, url: &str) -> (r: String)
        ensures
            r@ == filename_for(self@.filename_template, post.spec_id(), post.spec_md5(), url@),
    {
        self.filename_of(post.id(), post.md5(), url)
    }

    /// The name under which the file of the post with the given id and MD5
    /// hash is saved: see [`DownloadOptions::generate_filename`].
    pub fn filename_of(&self, id: u32, md5: Option<&str>, url: &str) -> (r: String)
        ensures
            r@ == filename_for(self@.filename_template, id, str_view(md5), url@),
    {
        let ext = extension_chars(url);
        match &self.filename_template {
            Some(template) => {
                let id_text = chars_of(decimal_string(id as u64).as_str());
                let md5_text = chars_of(
                    match md5 {
                        Some(hash) => hash,
                        None => "unknown",
                    },
                );
                let t0 = chars_of(template.as_str());
                let t1 = replaced_all(&t0, &chars_of("{id}"), &id_text);
                let t2 = replaced_all(&t1, &chars_of("{md5}"), &md5_text);
                let t3 = replaced_all(&t2, &chars_of("{ext}"), &ext);
                string_of(&t3)
            },
            None => {
                let mut name = decimal_string(id as u64);
                name.append(".");
                name.append(string_of(&ext).as_str());
                name
            },
        }
    }
}

/// The text behind the last `sep` of `s`: all of `s` where it holds none.
pub open spec fn last_segment(s: Seq<char>, sep: char) -> Seq<char> {
    s.subrange(last_position(s, sep) + 1, s.len() as int)
}

/// The text before the first `sep` of `s`: all of `s` where it holds none.
pub open spec fn first_segment(s: Seq<char>, sep: char) -> Seq<char> {
    s.subrange(0, position(s, sep))
}

/// The file extension of a URL: what stands behind its last dot, up to a
/// question mark.
pub open spec fn extension(url: Seq<char>) -> Seq<char> {
    first_segment(last_segment(url, '.'), '?')
}

/// The name under which the file of a post is saved.
pub open spec fn filename_for(
    template: Option<Seq<char>>,
    id: u32,
    md5: Option<Seq<char>>,
    url: Seq<char>,
) -> Seq<char> {
    match template {
        Some(t) => replace_all(
            replace_all(
                replace_all(t, "{id}"@, decimal(id as nat)),
                "{md5}"@,
                match md5 {
                    Some(hash) => hash,
                    None => "unknown"@,
                },
            ),
            "{ext}"@,
            extension(url),
        ),
        None => decimal(id as nat) + "."@ + extension(url),
    }
}

fn last_segment_chars(v: &Vec<char>, sep: char) -> (r: Vec<char>)
    ensures
        r@ == last_segment(v@, sep),
{
    let start: usize = match rfind_char(v, sep) {
        Some(i) => i + 1,
        None => 0,
    };
    copy_range(v, start, v.len())
}

fn extension_chars(url: &str) -> (r: Vec<char>)
    ensures
        r@ == extension(url@),
{
    let chars = chars_of(url);
    let tail = last_segment_chars(&chars, '.');
    let end: usize = match find_char(&tail, '?') {
        Some(i) => i,
        None => tail.len(),
    };
    copy_range(&tail, 0, end)
}

/// The file extension of a URL: what stands behind its last dot, up to a
/// question mark.
pub fn extension_of(url: &str) -> (r: String)
    ensures
        r@ == extension(url@),
{
    string_of(&extension_chars(url))
}

/// The name under which a URL's file is saved where no name is given: what
/// stands behind the URL's last slash.
pub fn filename_from_url(url: &str) -> (r: String)
    ensures
        r@ == last_segment(url@, '/'),
{
    let chars = chars_of(url);
    string_of(&last_segment_chars(&chars, '/'))
}

/// The URL of a post's file, or the error for a post that has none.
pub fn file_url_of<'a>(file_url: Option<&'a str>) -> (r: Result<&'a str, BooruError>)
    ensures
        match r {
            Ok(url) => file_url == Some(url),
            Err(BooruError::InvalidUrl(why)) => file_url is None && why@
                == "Post has no file URL"@,
            Err(_) => false,
        },
{
    match file_url {
        Some(url) => Ok(url),
        None => Err(BooruError::InvalidUrl(text("Post has no file URL"))),
    }
}

/// Result of a download operation.
#[derive(Debug, Clone, PartialEq, Eq)]
pub struct DownloadResult {
    /// Path where the file was saved.
    pub path: String,
    /// Size of the downloaded file in bytes.
    pub size: u64,
    /// Whether the file already existed and was skipped.
    pub skipped: bool,
}

/// Progress information for a download.
#[derive(Debug, Clone, Copy, PartialEq, Eq)]
pub struct DownloadProgress {
    /// Total bytes to download (if known).
    pub total: Option<u64>,
    /// Bytes downloaded so far.
    pub downloaded: u64,
    /// Post ID being downloaded.
    pub post_id: u32,
}

impl DownloadProgress {
    /// The progress of a download of which nothing has arrived yet.
    pub fn new(total: Option<u64>, post_id: u32) -> (r: Self)
        ensures
            r == (DownloadProgress { total, downloaded: 0, post_id }),
    {
        DownloadProgress { total, downloaded: 0, post_id }
    }

    /// The progress after `bytes` more bytes have arrived. The count stops
    /// at `u64::MAX`.
    pub fn advanced(self, bytes: usize) -> (r: Self)
        ensures
            r == (DownloadProgress {
                downloaded: if self.downloaded + bytes <= u64::MAX {
                    (self.downloaded + bytes) as u64
                } else {
                    u64::MAX
                },
                ..self
            }),
    {
        let room: u64 = u64::MAX - self.downloaded;
        let downloaded: u64 = if bytes as u64 <= room {
            self.downloaded + bytes as u64
        } else {
            u64::MAX
        };
        DownloadProgress { downloaded, ..self }
    }
}

} // verus!
