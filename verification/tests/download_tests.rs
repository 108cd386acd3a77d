use booru_rs::download::{
    extension_of, file_url_of, filename_from_url, DownloadOptions, DownloadProgress,
    DownloadResult,
};
use booru_rs::error::BooruError;

#[test]
fn test_download_options_default() {
    let opts = DownloadOptions::default();
    assert!(!opts.overwrite);
    assert!(opts.filename_template.is_none());
}

#[test]
fn test_download_options_builder() {
    let opts = DownloadOptions::default()
        .overwrite()
        .filename(&"{id}_{md5}.{ext}".to_string());

    assert!(opts.overwrite);
    assert!(opts.filename_template.is_some());
}

#[test]
fn options_are_set_one_by_one() {
    let opts = DownloadOptions::default().organize_by_rating();
    assert!(opts.organize_by_rating);
    assert!(!opts.overwrite);
    assert_eq!(opts.filename_template, None);
    let opts = opts.filename("{id}.{ext}");
    assert!(opts.organize_by_rating);
    assert_eq!(opts.filename_template, Some("{id}.{ext}".to_string()));
}

#[test]
fn existing_files_are_skipped_unless_overwritten() {
    let keep = DownloadOptions::default();
    assert!(keep.skips(true));
    assert!(!keep.skips(false));
    let overwrite = DownloadOptions::default().overwrite();
    assert!(!overwrite.skips(true));
    assert!(!overwrite.skips(false));
}

#[test]
fn filename_without_template_is_id_and_extension() {
    let opts = DownloadOptions::default();
    assert_eq!(
        opts.filename_of(12345, Some("abc"), "https://example.com/images/1234/abc123.jpg"),
        "12345.jpg"
    );
    assert_eq!(
        opts.filename_of(7, None, "https://example.com/a/b.png?size=large&x=1"),
        "7.png"
    );
    // The extension follows the last dot, wherever that stands.
    assert_eq!(
        opts.filename_of(7, None, "https://example.com/a/b.png?size=large&x=1.5"),
        "7.5"
    );
    assert_eq!(opts.filename_of(0, None, "noextension"), "0.noextension");
    assert_eq!(opts.filename_of(1, None, "trailing."), "1.");
}

#[test]
fn filename_template_fills_every_placeholder() {
    let opts = DownloadOptions::default().filename("{id}_{md5}.{ext}");
    assert_eq!(
        opts.filename_of(42, Some("d796ffc0"), "https://x.org/i/file.webm"),
        "42_d796ffc0.webm"
    );
    assert_eq!(
        opts.filename_of(42, None, "https://x.org/i/file.webm"),
        "42_unknown.webm"
    );
    let repeated = DownloadOptions::default().filename("{id}-{id}/{ext}{ext}{md5");
    assert_eq!(
        repeated.filename_of(9, Some("h"), "https://x.org/f.gif"),
        "9-9/gifgif{md5"
    );
    let plain = DownloadOptions::default().filename("fixed.bin");
    assert_eq!(plain.filename_of(9, Some("h"), "https://x.org/f.gif"), "fixed.bin");
}

#[test]
fn filename_template_agrees_with_std_replace() {
    for template in ["{id}", "{{id}}", "{id{id}}", "{i{id}d}", "a{md5}{md5}b{ext}", "{ext}{id}{md5}", "{", "}", ""] {
        let expected = template
            .replace("{id}", "31")
            .replace("{md5}", "{ext}")
            .replace("{ext}", "png");
        let opts = DownloadOptions::default().filename(template);
        assert_eq!(
            opts.filename_of(31, Some("{ext}"), "http://h/p.png"),
            expected,
            "{:?}",
            template
        );
    }
}

#[test]
fn extension_is_what_follows_the_last_dot() {
    assert_eq!(extension_of("https://example.com/a.tar.gz"), "gz");
    assert_eq!(extension_of("https://example.com/a.jpg?token=1"), "jpg");
    assert_eq!(extension_of("https://example.com/a.jpg?a=1?b=2"), "jpg");
    assert_eq!(extension_of("https://example.com/a?b=c.d"), "d");
    assert_eq!(extension_of("file"), "file");
    assert_eq!(extension_of(""), "");
    assert_eq!(extension_of("a."), "");
    assert_eq!(extension_of("?x"), "");
}

#[test]
fn extension_agrees_with_std() {
    for url in ["https://e.com/a.b/c", "a.b.c?d.e", "..", "?.?", "x.jpeg", "é.ü?ö"] {
        let expected = url.rsplit('.').next().unwrap_or("jpg").split('?').next().unwrap_or("jpg");
        assert_eq!(extension_of(url), expected, "{:?}", url);
    }
}

#[test]
fn filename_from_url_is_what_follows_the_last_slash() {
    assert_eq!(filename_from_url("https://example.com/images/1234/abc123.jpg"), "abc123.jpg");
    assert_eq!(filename_from_url("abc123.jpg"), "abc123.jpg");
    assert_eq!(filename_from_url("https://example.com/dir/"), "");
    assert_eq!(filename_from_url(""), "");
    assert_eq!(filename_from_url("/"), "");
    assert_eq!(filename_from_url("a/b?c=d/e"), "e");
}

#[test]
fn a_post_without_file_url_cannot_be_downloaded() {
    assert_eq!(file_url_of(Some("https://x/y.png")), Ok("https://x/y.png"));
    assert_eq!(
        file_url_of(None),
        Err(BooruError::InvalidUrl("Post has no file URL".to_string()))
    );
}

#[test]
fn progress_adds_up() {
    let progress = DownloadProgress::new(Some(100), 7);
    assert_eq!(progress, DownloadProgress { total: Some(100), downloaded: 0, post_id: 7 });
    let progress = progress.advanced(30).advanced(0).advanced(70);
    assert_eq!(progress, DownloadProgress { total: Some(100), downloaded: 100, post_id: 7 });
    let unknown = DownloadProgress::new(None, 1).advanced(5);
    assert_eq!(unknown.total, None);
    assert_eq!(unknown.downloaded, 5);
}

#[test]
fn progress_stops_at_the_greatest_count() {
    let nearly = DownloadProgress { total: None, downloaded: u64::MAX - 2, post_id: 1 };
    assert_eq!(nearly.advanced(2).downloaded, u64::MAX);
    assert_eq!(nearly.advanced(3).downloaded, u64::MAX);
    assert_eq!(nearly.advanced(usize::MAX).downloaded, u64::MAX);
}

#[test]
fn download_result_holds_its_fields() {
    let result = DownloadResult { path: "downloads/1.jpg".to_string(), size: 10, skipped: true };
    assert_eq!(result.clone(), result);
    assert_eq!(result.path, "downloads/1.jpg");
}

#[test]
fn filename_is_generated_from_a_post() {
    let post = booru_rs::safebooru::SafebooruPost {
        id: 12345,
        score: None,
        height: 1,
        width: 1,
        hash: "abc123def456".to_string(),
        tags: String::new(),
        image: String::new(),
        directory: 0,
        file_url: "https://example.com/images/1234/abc123.jpg".to_string(),
        preview_url: String::new(),
        sample_url: String::new(),
        source: String::new(),
        change: 0,
        rating: booru_rs::safebooru::SafebooruRating::General,
    };
    let url = "https://example.com/images/1234/abc123.jpg";
    assert_eq!(DownloadOptions::default().generate_filename(&post, url), "12345.jpg");
    assert_eq!(
        DownloadOptions::default().filename("{md5}-{id}.{ext}").generate_filename(&post, url),
        "abc123def456-12345.jpg"
    );
}
