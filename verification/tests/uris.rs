use restate_downloader::common::ResponseMetadata;
use restate_downloader::error::ErrorKind;
use restate_downloader::text::slice_of;
use restate_downloader::uri::{last_nonempty_segment, last_segment_start, Uri};
use restate_downloader::without_store::{example_download_request, resolve_uri_and_path};

fn response(url: &str, headers: &[(&str, &str)]) -> ResponseMetadata {
    ResponseMetadata {
        status: 200,
        headers: headers.iter().map(|(n, v)| (n.to_string(), v.to_string())).collect(),
        url: Uri::parse(url).unwrap(),
    }
}

fn resolve(uri: &str, response: &ResponseMetadata) -> (String, String) {
    let (target, path) = resolve_uri_and_path(Uri::parse(uri).unwrap(), response).unwrap();
    (target.text(), path)
}

#[test]
fn uri_is_cut_at_the_ends_of_its_path() {
    let uri = Uri::parse("s3://bucket/prefix/name.bin?versionId=3#part").unwrap();
    assert_eq!(uri.origin, "s3://bucket");
    assert_eq!(uri.path, "/prefix/name.bin");
    assert_eq!(uri.rest, "?versionId=3#part");
    assert!(!uri.opaque);
    assert_eq!(uri.text(), "s3://bucket/prefix/name.bin?versionId=3#part");
}

#[test]
fn uri_is_read_in_its_serialized_form() {
    let uri = Uri::parse("HTTPS://Example.COM:443/a b/../c").unwrap();
    assert_eq!(uri.text(), "https://example.com/c");
    assert_eq!(uri.path, "/c");
}

#[test]
fn uri_without_hierarchy_is_opaque() {
    let uri = Uri::parse("mailto:someone@example.com").unwrap();
    assert!(uri.opaque);
    assert_eq!(uri.origin, "mailto:");
    assert_eq!(uri.path, "someone@example.com");
    assert_eq!(uri.filename(), None);
}

#[test]
fn text_that_is_no_absolute_uri_is_refused() {
    assert!(Uri::parse("not a uri").is_none());
    assert!(Uri::parse("/relative/path").is_none());
    assert!(Uri::parse("").is_none());
}

#[test]
fn copy_of_a_uri_is_the_same_uri() {
    let uri = Uri::parse("s3://bucket/a/b?c#d").unwrap();
    let copy = uri.duplicate();
    assert_eq!(copy.text(), uri.text());
    assert_eq!(copy.opaque, uri.opaque);
}

#[test]
fn destination_with_a_file_name_is_split() {
    let response = response("https://example.com/other.txt", &[]);
    assert_eq!(
        resolve("s3://bucket/prefix/name.bin", &response),
        ("s3://bucket/prefix/".to_string(), "name.bin".to_string())
    );
    assert_eq!(
        resolve("s3://bucket/name.bin", &response),
        ("s3://bucket/".to_string(), "name.bin".to_string())
    );
    assert_eq!(
        resolve("https://store.example.com/a/b/c.tar.gz?region=eu#x", &response),
        ("https://store.example.com/a/b/?region=eu#x".to_string(), "c.tar.gz".to_string())
    );
}

#[test]
fn destination_that_is_a_directory_takes_the_name_of_the_response() {
    let response = response("https://example.com/from-url.txt", &[]);
    assert_eq!(
        resolve("s3://bucket/prefix/", &response),
        ("s3://bucket/prefix/".to_string(), "from-url.txt".to_string())
    );
    assert_eq!(
        resolve("s3://bucket", &response),
        ("s3://bucket".to_string(), "from-url.txt".to_string())
    );
    let named = response_with_disposition();
    assert_eq!(
        resolve("s3://bucket/", &named),
        ("s3://bucket/".to_string(), "report.pdf".to_string())
    );
}

fn response_with_disposition() -> ResponseMetadata {
    response(
        "https://example.com/generic",
        &[("content-disposition", "attachment; filename=\"report.pdf\"")],
    )
}

#[test]
fn destination_with_a_file_name_does_not_ask_the_response() {
    let nameless = response("https://example.com/", &[]);
    assert_eq!(
        resolve("s3://bucket/prefix/name.bin", &nameless),
        ("s3://bucket/prefix/".to_string(), "name.bin".to_string())
    );
}

#[test]
fn directory_destination_without_any_name_fails_resolution() {
    let nameless = response("https://example.com/", &[]);
    let error =
        resolve_uri_and_path(Uri::parse("s3://bucket/prefix/").unwrap(), &nameless).unwrap_err();
    assert_eq!(error.kind, ErrorKind::Resolution);
    assert!(error.is_terminal());
}

#[test]
fn opaque_destination_is_a_terminal_validation_failure() {
    let response = response("https://example.com/file.txt", &[]);
    let error =
        resolve_uri_and_path(Uri::parse("mailto:someone@example.com").unwrap(), &response)
            .unwrap_err();
    assert_eq!(error.kind, ErrorKind::Validation);
    assert_eq!(error.message, "Cannot modify URL path");
    assert!(error.is_terminal());
}

#[test]
fn destination_without_segments_gets_the_default_name() {
    let response = response("https://example.com/file.txt", &[]);
    let odd = Uri {
        origin: "scheme:".to_string(),
        path: "name".to_string(),
        rest: String::new(),
        opaque: false,
    };
    let (target, path) = resolve_uri_and_path(odd, &response).unwrap();
    assert_eq!(path, "download");
    assert_eq!(target.text(), "scheme:");
}

#[test]
fn last_segment_starts_behind_the_last_separator() {
    let chars: Vec<char> = "/a/bc".chars().collect();
    assert_eq!(last_segment_start(&chars), 3);
    assert_eq!(slice_of(&chars, 3, 5), "bc");
    assert_eq!(slice_of(&chars, 0, 3), "/a/");
    let none: Vec<char> = "abc".chars().collect();
    assert_eq!(last_segment_start(&none), 0);
    let dir: Vec<char> = "a/".chars().collect();
    assert_eq!(last_segment_start(&dir), 2);
    assert_eq!(last_segment_start(&Vec::new()), 0);
}

#[test]
fn last_nonempty_segment_skips_trailing_separators() {
    let find = |text: &str| last_nonempty_segment(&text.chars().collect());
    assert_eq!(find("/a/bc"), Some((3, 5)));
    assert_eq!(find("/a/bc//"), Some((3, 5)));
    assert_eq!(find("abc"), Some((0, 3)));
    assert_eq!(find("//"), None);
    assert_eq!(find(""), None);
}

#[test]
fn example_request_names_a_bucket() {
    let request = example_download_request();
    assert_eq!(
        request.url.text(),
        "https://download.blender.org/peach/bigbuckbunny_movies/big_buck_bunny_1080p_h264.mov"
    );
    assert_eq!(request.output.uri.text(), "s3://bucket");
    assert!(request.request_options.is_none());
    assert!(!request.output.common.set_content_type);
    assert!(request.output.common.content_type.is_none());
    let parsed = Uri::parse(request.url.text().as_str()).unwrap();
    assert_eq!(parsed.origin, request.url.origin);
    assert_eq!(parsed.path, request.url.path);
    assert_eq!(parsed.rest, request.url.rest);
    assert_eq!(parsed.opaque, request.url.opaque);
    let bucket = Uri::parse("s3://bucket").unwrap();
    assert_eq!(bucket.origin, request.output.uri.origin);
    assert_eq!(bucket.path, request.output.uri.path);
}
