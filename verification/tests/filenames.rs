use restate_downloader::common::{
    choose_filename, filename_from_headers, filename_from_response, filename_from_url,
    find_header, ResponseMetadata,
};
use restate_downloader::error::{ErrorKind, RetryPolicy};
use restate_downloader::uri::Uri;

fn response(url: &str, headers: &[(&str, &str)]) -> ResponseMetadata {
    ResponseMetadata {
        status: 200,
        headers: headers.iter().map(|(n, v)| (n.to_string(), v.to_string())).collect(),
        url: Uri::parse(url).unwrap(),
    }
}

#[test]
fn header_name_wins_over_url_name() {
    let response = response(
        "https://example.com/generic",
        &[("content-disposition", "attachment; filename=\"report.pdf\"")],
    );
    assert_eq!(filename_from_response(&response).unwrap(), "report.pdf");
}

#[test]
fn extended_filename_is_decoded() {
    let response = response_with_attachment("attachment; filename*=UTF-8''encoded%20file.txt");
    assert_eq!(filename_from_response(&response).unwrap(), "encoded file.txt");
}

#[test]
fn parameter_without_a_disposition_type_names_nothing() {
    let response = response_with_attachment("filename*=UTF-8''encoded%20file.txt");
    assert_eq!(filename_from_headers(&response.headers), None);
    assert_eq!(filename_from_response(&response).unwrap(), "generic");
}

fn response_with_attachment(value: &str) -> ResponseMetadata {
    response("https://example.com/generic", &[("content-disposition", value)])
}

#[test]
fn url_name_is_used_without_a_disposition_header() {
    let response = response("https://example.com/file.pdf", &[("content-type", "text/plain")]);
    assert_eq!(filename_from_headers(&response.headers), None);
    assert_eq!(filename_from_response(&response).unwrap(), "file.pdf");
}

#[test]
fn url_name_is_used_where_the_header_names_nothing() {
    let inline = response_with_attachment("inline");
    assert_eq!(filename_from_response(&inline).unwrap(), "generic");
    let empty = response_with_attachment("attachment; filename=\"\"");
    assert_eq!(filename_from_headers(&empty.headers), Some(String::new()));
    assert_eq!(filename_from_response(&empty).unwrap(), "generic");
}

#[test]
fn header_is_found_whatever_the_case_of_its_name() {
    let response = response(
        "https://example.com/generic",
        &[("Content-Disposition", "attachment; filename=upper.txt")],
    );
    assert_eq!(filename_from_response(&response).unwrap(), "upper.txt");
    assert_eq!(
        find_header(&response.headers, "CONTENT-DISPOSITION"),
        Some("attachment; filename=upper.txt".to_string())
    );
    assert_eq!(find_header(&response.headers, "content-dispositio"), None);
}

#[test]
fn first_header_of_a_name_is_the_one_that_counts() {
    let headers = vec![
        ("x-other".to_string(), "0".to_string()),
        ("content-type".to_string(), "text/plain".to_string()),
        ("Content-Type".to_string(), "text/html".to_string()),
    ];
    assert_eq!(find_header(&headers, "content-type"), Some("text/plain".to_string()));
}

#[test]
fn missing_filename_is_a_terminal_resolution_failure() {
    for url in ["https://example.com/", "https://example.com//", "mailto:someone@example.com"] {
        let error = filename_from_response(&response(url, &[])).unwrap_err();
        assert_eq!(error.kind, ErrorKind::Resolution, "for {}", url);
        assert_eq!(error.message, "Failed to determine filename from the response");
        assert!(error.is_terminal());
        assert_eq!(error.kind.retry_policy(), RetryPolicy::Terminal);
    }
}

#[test]
fn url_name_is_the_last_segment_that_is_not_empty() {
    let name = |url: &str| filename_from_url(&Uri::parse(url).unwrap());
    assert_eq!(name("https://example.com/a/b/c.txt?x=1#top"), Some("c.txt".to_string()));
    assert_eq!(name("https://example.com/a%20b"), Some("a%20b".to_string()));
    assert_eq!(name("https://example.com/a/b/"), Some("b".to_string()));
    assert_eq!(name("https://example.com/a//"), Some("a".to_string()));
    assert_eq!(name("https://example.com"), None);
    assert_eq!(name("https://example.com///"), None);
    assert_eq!(name("s3://bucket"), None);
    assert_eq!(name("data:text/plain,hello"), None);
}

#[test]
fn choose_filename_takes_the_first_name_that_is_not_empty() {
    let some = |s: &str| Some(s.to_string());
    assert_eq!(choose_filename(some("h"), some("u")).unwrap(), "h");
    assert_eq!(choose_filename(some(""), some("u")).unwrap(), "u");
    assert_eq!(choose_filename(None, some("u")).unwrap(), "u");
    assert_eq!(choose_filename(some("h"), None).unwrap(), "h");
    assert_eq!(choose_filename(some(""), some("")).unwrap_err().kind, ErrorKind::Resolution);
    assert_eq!(choose_filename(None, None).unwrap_err().kind, ErrorKind::Resolution);
}
