use restate_downloader::common::{filename_from_response, ResponseMetadata};
use restate_downloader::error::DownloadError;
use restate_downloader::uri::Uri;
use restate_downloader::with_store::{resolve_filepath, PosixPath};
use typed_path::UnixPathBuf;

fn response_from(url: &str) -> ResponseMetadata {
    ResponseMetadata { status: 200, headers: Vec::new(), url: Uri::parse(url).unwrap() }
}

fn with_content_disposition(mut response: ResponseMetadata, value: &str) -> ResponseMetadata {
    response.headers.push(("content-disposition".to_string(), value.to_string()));
    response
}

fn resolve(path: Option<PosixPath>, response: &ResponseMetadata) -> Result<String, DownloadError> {
    resolve_filepath(path, response)
}

#[test]
fn test_resolve_filepath_with_none_path() {
    let response = response_from("https://example.com/test-file.pdf");

    let result = resolve(None, &response);
    assert!(result.is_ok());
    assert_eq!(result.unwrap(), "test-file.pdf");
}

#[test]
fn test_resolve_filepath_with_none_path_and_content_disposition() {
    let response = with_content_disposition(
        response_from("https://example.com/generic-name"),
        "attachment; filename=\"downloaded-file.pdf\"",
    );

    let result = resolve(None, &response);
    assert!(result.is_ok());
    assert_eq!(result.unwrap(), "downloaded-file.pdf");
}

#[test]
fn test_resolve_filepath_with_explicit_filename() {
    let path = PosixPath("downloads/my-file.txt".to_string());
    let response = response_from("https://example.com/original.pdf");

    let result = resolve(Some(path), &response);
    assert!(result.is_ok());
    assert_eq!(result.unwrap(), "downloads/my-file.txt");
}

#[test]
fn test_resolve_filepath_with_trailing_slash() {
    let path = PosixPath("downloads/".to_string());
    let response = response_from("https://example.com/file.pdf");

    let result = resolve(Some(path), &response);
    assert!(result.is_ok());
    assert_eq!(result.unwrap(), "downloads/file.pdf");
}

#[test]
fn test_resolve_filepath_with_trailing_slash_and_content_disposition() {
    let path = PosixPath("downloads/".to_string());
    let response = with_content_disposition(
        response_from("https://example.com/generic"),
        "attachment; filename=\"report.pdf\"",
    );

    let result = resolve(Some(path), &response);
    assert!(result.is_ok());
    assert_eq!(result.unwrap(), "downloads/report.pdf");
}

#[test]
fn test_resolve_filepath_with_empty_normalized_path() {
    let path = PosixPath(".".to_string());
    let response = response_from("https://example.com/root-file.txt");

    let result = resolve(Some(path), &response);
    assert!(result.is_ok());
    assert_eq!(result.unwrap(), "root-file.txt");
}

#[test]
fn test_resolve_filepath_with_path_normalization() {
    let test_cases = vec![
        ("./downloads/file.txt", "downloads/file.txt"),
        ("downloads/../downloads/file.txt", "downloads/file.txt"),
        ("downloads/./file.txt", "downloads/file.txt"),
        ("/absolute/path.txt", "/absolute/path.txt"),
        ("nested/../../file.txt", "file.txt"),
    ];

    for (input_path, expected) in test_cases {
        let path = PosixPath(input_path.to_string());
        let response = response_from("https://example.com/ignored.pdf");

        let result = resolve(Some(path), &response);
        assert!(result.is_ok(), "Failed for input: {}", input_path);
        assert_eq!(result.unwrap(), expected, "Failed for input: {}", input_path);
    }
}

#[test]
fn test_resolve_filepath_with_directory_and_trailing_slash() {
    let test_cases = vec![
        ("downloads/", "downloads/filename.txt"),
        ("a/b/c/", "a/b/c/filename.txt"),
        ("./downloads/", "downloads/filename.txt"),
        ("../downloads/", "downloads/filename.txt"),
        ("./", "filename.txt"),
        ("", "filename.txt"),
    ];

    for (input_path, expected) in test_cases {
        let path = PosixPath(input_path.to_string());
        let response = response_from("https://example.com/filename.txt");

        let result = resolve(Some(path), &response);
        assert!(result.is_ok(), "Failed for input: '{}'", input_path);
        assert_eq!(result.unwrap(), expected, "Failed for input: '{}'", input_path);
    }
}

#[test]
fn test_resolve_filepath_complex_content_disposition() {
    let test_cases = vec![
        ("attachment; filename=simple.txt", "simple.txt"),
        ("attachment; filename=\"quoted.txt\"", "quoted.txt"),
        ("attachment; filename*=UTF-8''encoded%20file.txt", "encoded file.txt"),
        ("inline; filename=\"inline-file.pdf\"", "inline-file.pdf"),
    ];

    for (cd_header, expected_filename) in test_cases {
        let path = PosixPath("output/".to_string());
        let response =
            with_content_disposition(response_from("https://example.com/generic"), cd_header);

        let result = resolve(Some(path), &response);
        assert!(result.is_ok(), "Failed for content-disposition: {}", cd_header);
        assert_eq!(
            result.unwrap(),
            format!("output/{}", expected_filename),
            "Failed for content-disposition: {}",
            cd_header
        );
    }
}

#[test]
fn test_posix_path_conversion() {
    let path = PosixPath("test/path".to_string());
    let unix_path = UnixPathBuf::from(path.clone().0);
    assert_eq!(unix_path.to_string(), "test/path");

    let unix_path2 = UnixPathBuf::from(path.as_str());
    assert_eq!(unix_path2.to_string(), "test/path");
    assert_eq!(path.as_str(), "test/path");
}

#[test]
fn test_posix_path_edge_cases() {
    let test_cases = vec![
        ("", ""),
        ("/", "/"),
        ("./", ""),
        ("../", ""),
        ("a/b/../c", "a/c"),
        ("./a/./b", "a/b"),
    ];

    for (input, expected_normalized) in test_cases {
        let path = PosixPath(input.to_string());
        let normalized = path.normalize();
        assert_eq!(normalized, expected_normalized, "Failed for input: '{}'", input);
    }
}

#[test]
fn test_filename_extraction_edge_cases() {
    let test_cases = vec![
        ("https://example.com/", None),
        ("https://example.com/path/", Some("path")),
        ("https://example.com/file", Some("file")),
        ("https://example.com/path/file.ext", Some("file.ext")),
    ];

    for (url, expected) in test_cases {
        let response = response_from(url);
        let result = filename_from_response(&response);

        match expected {
            Some(expected_filename) => {
                assert!(result.is_ok(), "Should succeed for URL: {}", url);
                assert_eq!(result.unwrap(), expected_filename);
            }
            None => {
                assert!(result.is_err(), "Should fail for URL: {}", url);
            }
        }
    }
}
