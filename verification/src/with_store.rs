//! Downloads into a store that was fixed beforehand: the request names at
//! most a path inside it.

use crate::common::{
    filename_from_response, name_view, response_filename, OutputOptions as ContentTypeOptions,
    RequestOptions, ResponseMetadata, ResponseText,
};
use crate::download::{started, Destination, DestinationText, Download};
use crate::error::{DownloadError, ErrorKind, Failure};
use crate::path::{has_trailing_slash, normalize, normalized, normalized_trailing_slash};
use crate::text::chars_of;
use crate::uri::{Uri, UriText};
use vstd::prelude::*;
use vstd::string::StringExecFns;

verus! {

/// A path inside the store, written the POSIX way.
#[derive(Clone, Debug)]
pub struct PosixPath(pub String);

impl View for PosixPath {
    type V = Seq<char>;

    open spec fn view(&self) -> Seq<char> {
        self.0@
    }
}

impl PosixPath {
    /// The path that `path` spells.
    pub fn new(path: String) -> (posix: PosixPath)
        ensures
            posix@ == path@,
    {
        PosixPath(path)
    }

    /// The path as it was written.
    pub fn as_str(&self) -> (path: &str)
        ensures
            path@ == self@,
    {
        self.0.as_str()
    }

    /// Whether the path was written as a directory, with a separator at its end.
    pub fn has_trailing_slash(&self) -> (trailing: bool)
        ensures
            trailing == has_trailing_slash(self@),
    {
        let chars = chars_of(self.0.as_str());
        chars.len() > 0 && chars[chars.len() - 1] == '/'
    }

    /// The normal form of the path.
    pub fn normalize(&self) -> (path: String)
        ensures
            path@ == normalized(self@),
    {
        normalize(self.0.as_str())
    }
}

/// The text of an optional path.
pub open spec fn opt_path(path: Option<PosixPath>) -> Option<Seq<char>> {
    match path {
        Some(path) => Some(path@),
        None => None,
    }
}

/// Output options of a download into the fixed store.
#[derive(Clone, Debug)]
pub struct OutputOptions {
    /// Where to save the file; a path that ends in a separator names a
    /// directory.
    pub path: Option<PosixPath>,
    /// How the content type of the stored object is chosen.
    pub common: ContentTypeOptions,
}

/// A request to download a file from a URL into the fixed store.
#[derive(Clone, Debug)]
pub struct DownloadRequest {
    /// The URL to download from.
    pub url: Uri,
    /// Options of the outbound request.
    pub request: Option<RequestOptions>,
    /// Output options.
    pub output: Option<OutputOptions>,
}

impl DownloadRequest {
    /// Starts the download that the request asks for.
    pub fn start(self) -> (download: Download)
        ensures
            download@ == started(
                self.url@,
                self.request,
                DestinationText::Bound { path: requested_path(self.output) },
                requested_content_type(self.output),
            ),
            download@.wf(),
    {
        match self.output {
            Some(output) => Download::new(
                self.url,
                self.request,
                Destination::Bound { path: output.path },
                Some(output.common),
            ),
            None => Download::new(self.url, self.request, Destination::Bound { path: None }, None),
        }
    }
}

/// The path that the output options of a request name, if any.
pub open spec fn requested_path(output: Option<OutputOptions>) -> Option<Seq<char>> {
    match output {
        Some(output) => opt_path(output.path),
        None => None,
    }
}

/// The content type options that a request carries, if any.
pub open spec fn requested_content_type(output: Option<OutputOptions>) -> Option<
    ContentTypeOptions,
> {
    match output {
        Some(output) => Some(output.common),
        None => None,
    }
}

/// A request that serves as an example: one file, stored under its own name.
pub fn example_download_request() -> (request: DownloadRequest)
    ensures
        request.url@ == (UriText {
            origin: "https://example.com"@,
            path: "/file.pdf"@,
            rest: Seq::<char>::empty(),
            opaque: false,
        }),
        request.url@.text() == "https://example.com/file.pdf"@,
        request.request is None,
        request.output is None,
{
    proof {
        reveal_strlit("https://example.com");
        reveal_strlit("/file.pdf");
        reveal_strlit("");
        assert(""@ =~= Seq::<char>::empty());
        reveal_strlit("https://example.com/file.pdf");
        assert("https://example.com"@ + "/file.pdf"@ + ""@ =~= "https://example.com/file.pdf"@);
    }
    DownloadRequest {
        url: Uri {
            origin: String::from_str("https://example.com"),
            path: String::from_str("/file.pdf"),
            rest: String::from_str(""),
            opaque: false,
        },
        request: None,
        output: None,
    }
}

/// `name` inside the directory `dir`; `name` alone where `dir` is empty.
pub open spec fn placed(dir: Seq<char>, name: Seq<char>) -> Seq<char> {
    if dir.len() == 0 {
        name
    } else {
        dir + seq!['/'] + name
    }
}

/// The object path of a download into the fixed store.
///
/// Without a path it is the file name of the response. A path that ends in a
/// separator, or whose normal form is empty, is a directory: the file name of
/// the response is placed inside its normal form. Any other path is taken in
/// its normal form, and the response is not asked for a name.
pub open spec fn resolved_filepath(path: Option<Seq<char>>, response: ResponseText) -> Result<
    Seq<char>,
    Failure,
> {
    match path {
        Some(path) => if has_trailing_slash(path) || normalized(path).len() == 0 {
            match response_filename(response) {
                Ok(name) => Ok(placed(normalized(path), name)),
                Err(failure) => Err(failure),
            }
        } else {
            Ok(normalized(path))
        },
        None => response_filename(response),
    }
}

/// Resolves the object path of a download into the fixed store.
pub fn resolve_filepath(path: Option<PosixPath>, response: &ResponseMetadata) -> (resolved: Result<
    String,
    DownloadError,
>)
    ensures
        name_view(resolved) == resolved_filepath(opt_path(path), response@),
{
    let path = match path {
        Some(path) => path,
        None => {
            return filename_from_response(response);
        },
    };
    let trailing = path.has_trailing_slash();
    let dir = path.normalize();
    if trailing || dir.as_str().unicode_len() == 0 {
        match filename_from_response(response) {
            Ok(name) => {
                if dir.as_str().unicode_len() == 0 {
                    Ok(name)
                } else {
                    let mut placed = dir;
                    placed.append("/");
                    placed.append(name.as_str());
                    proof {
                        reveal_strlit("/");
                        assert("/"@ =~= seq!['/']);
                    }
                    Ok(placed)
                }
            },
            Err(error) => Err(error),
        }
    } else {
        Ok(dir)
    }
}

/// A path written as a directory resolves to its normal form, a separator and
/// the file name of the response, provided that the normal form is not empty.
pub proof fn directory_path_holds_filename(path: Seq<char>, response: ResponseText)
    requires
        has_trailing_slash(path),
        normalized(path).len() > 0,
        response_filename(response) is Ok,
    ensures
        resolved_filepath(Some(path), response) == Ok::<Seq<char>, Failure>(
            normalized(path) + seq!['/'] + response_filename(response)->Ok_0,
        ),
{
}

/// A path that names a file is taken as it is, in its normal form: the
/// response is not asked for a name and cannot make the resolution fail.
pub proof fn file_path_is_authoritative(path: Seq<char>, response: ResponseText)
    requires
        !has_trailing_slash(path),
        normalized(path).len() > 0,
    ensures
        resolved_filepath(Some(path), response) == Ok::<Seq<char>, Failure>(normalized(path)),
{
}

/// A path whose normal form is empty resolves to the file name alone.
pub proof fn empty_path_is_filename(path: Seq<char>, response: ResponseText)
    requires
        normalized(path).len() == 0,
    ensures
        resolved_filepath(Some(path), response) == response_filename(response),
{
}

/// An object path that was resolved is never empty.
pub proof fn resolved_filepath_is_not_empty(path: Option<Seq<char>>, response: ResponseText)
    ensures
        resolved_filepath(path, response) is Ok ==> resolved_filepath(path, response)->Ok_0.len()
            > 0,
{
}

/// An object path that was resolved ends in a separator only where the file
/// name of the response does, or where the path given is the root alone.
pub proof fn resolved_filepath_trailing_slash(path: Option<Seq<char>>, response: ResponseText)
    ensures
        resolved_filepath(path, response) matches Ok(resolved) ==> (has_trailing_slash(resolved)
            ==> (response_filename(response) matches Ok(name) && has_trailing_slash(name)) || (
        path matches Some(given) && normalized(given) == seq!['/'])),
{
    if let Some(given) = path {
        normalized_trailing_slash(given);
    }
}

/// A download into the fixed store can fail to resolve only for want of a
/// file name, which no retry will find.
pub proof fn lemma_resolution_failure_is_terminal(path: Option<Seq<char>>, response: ResponseText)
    ensures
        resolved_filepath(path, response) matches Err(failure) ==> failure.kind
            == ErrorKind::Resolution,
{
}

} // verus!
