//! Downloads whose request names the store itself: one URI gives both the
//! backend and the path of the object inside it.

use crate::common::{
    filename_from_response, response_filename, OutputOptions as ContentTypeOptions, RequestOptions,
    ResponseMetadata, ResponseText,
};
use crate::download::{started, Destination, DestinationText, Download, DownloadResult};
use crate::error::{DownloadError, ErrorKind, Failure, RetryPolicy};
use crate::path::{is_absolute, lemma_segments_nonempty, lemma_segments_slash_free};
use crate::text::{chars_of, slice_of};
use crate::uri::{
    last_segment, last_segment_start, lemma_last_segment_is_suffix, parent, Uri, UriText,
};
use vstd::prelude::*;
use vstd::string::StringExecFns;

verus! {

/// Output options of a download whose store is named by a URI.
#[derive(Clone, Debug)]
pub struct OutputOptions {
    /// The storage URI to save the file to.
    pub uri: Uri,
    /// How the content type of the stored object is chosen.
    pub common: ContentTypeOptions,
}

/// A request to download a file from a URL into the store that a URI names.
#[derive(Clone, Debug)]
pub struct DownloadRequest {
    /// The URL to download from.
    pub url: Uri,
    /// Options of the outbound request.
    pub request_options: Option<RequestOptions>,
    /// Output options.
    pub output: OutputOptions,
}

/// The outcome of a download whose store is named by a URI: where the object
/// went, and how large it is.
#[derive(Clone, Debug)]
pub struct DownloadResponse {
    pub path: String,
    pub size: u64,
}

impl DownloadResponse {
    /// The answer to a download whose store a URI names: the path and the
    /// size of the object.
    pub fn new(result: DownloadResult) -> (response: DownloadResponse)
        ensures
            response.path@ == result.resolved_path@,
            response.size == result.bytes_written,
    {
        DownloadResponse { path: result.resolved_path, size: result.bytes_written }
    }
}

impl DownloadRequest {
    /// Starts the download that the request asks for.
    pub fn start(self) -> (download: Download)
        ensures
            download@ == started(
                self.url@,
                self.request_options,
                DestinationText::Unbound { uri: self.output.uri@ },
                Some(self.output.common),
            ),
            download@.wf(),
    {
        Download::new(
            self.url,
            self.request_options,
            Destination::Unbound { uri: self.output.uri },
            Some(self.output.common),
        )
    }
}

/// A request that serves as an example: a film, stored in a bucket under its
/// own name, with no content type set.
pub fn example_download_request() -> (request: DownloadRequest)
    ensures
        request.url@ == (UriText {
            origin: "https://download.blender.org"@,
            path: "/peach/bigbuckbunny_movies/big_buck_bunny_1080p_h264.mov"@,
            rest: Seq::<char>::empty(),
            opaque: false,
        }),
        request.url@.text()
            == "https://download.blender.org/peach/bigbuckbunny_movies/big_buck_bunny_1080p_h264.mov"@,
        request.request_options is None,
        request.output.uri@ == (UriText {
            origin: "s3://bucket"@,
            path: Seq::<char>::empty(),
            rest: Seq::<char>::empty(),
            opaque: false,
        }),
        request.output.uri@.text() == "s3://bucket"@,
        !request.output.common.set_content_type,
        request.output.common.content_type is None,
{
    proof {
        reveal_strlit("https://download.blender.org");
        reveal_strlit("/peach/bigbuckbunny_movies/big_buck_bunny_1080p_h264.mov");
        reveal_strlit("");
        assert(""@ =~= Seq::<char>::empty());
        reveal_strlit("s3://bucket");
        reveal_strlit(
            "https://download.blender.org/peach/bigbuckbunny_movies/big_buck_bunny_1080p_h264.mov",
        );
        assert("https://download.blender.org"@
            + "/peach/bigbuckbunny_movies/big_buck_bunny_1080p_h264.mov"@ + ""@
            =~= "https://download.blender.org/peach/bigbuckbunny_movies/big_buck_bunny_1080p_h264.mov"@);
        assert("s3://bucket"@ + ""@ + ""@ =~= "s3://bucket"@);
    }
    DownloadRequest {
        url: Uri {
            origin: String::from_str("https://download.blender.org"),
            path: String::from_str("/peach/bigbuckbunny_movies/big_buck_bunny_1080p_h264.mov"),
            rest: String::from_str(""),
            opaque: false,
        },
        request_options: None,
        output: OutputOptions {
            uri: Uri {
                origin: String::from_str("s3://bucket"),
                path: String::from_str(""),
                rest: String::from_str(""),
                opaque: false,
            },
            common: ContentTypeOptions { set_content_type: false, content_type: None },
        },
    }
}

/// The name under which a file is stored where the destination names none.
pub open spec fn default_filename() -> Seq<char> {
    "download"@
}

/// The message of a destination whose path has no segments to remove.
pub open spec fn fixed_path_message() -> Seq<char> {
    "Cannot modify URL path"@
}

/// The file name that the path of a destination ends in: its last segment;
/// the default name where that is empty or the path has no segments.
pub open spec fn destination_filename(path: Seq<char>) -> Seq<char> {
    if is_absolute(path) && last_segment(path).len() > 0 {
        last_segment(path)
    } else {
        default_filename()
    }
}

/// The backend target and the object path of a download to `uri`.
///
/// A path that is empty or ends in a separator names a directory: the target
/// is the URI as it stands, and the object is named by the response. Any
/// other path ends in the name of the object: the target is the URI without
/// that last segment. A URI whose path is opaque cannot lose a segment.
pub open spec fn resolved_uri_and_path(uri: UriText, response: ResponseText) -> Result<
    (UriText, Seq<char>),
    Failure,
> {
    if uri.path.len() == 0 || uri.path.last() == '/' {
        match response_filename(response) {
            Ok(name) => Ok((uri, name)),
            Err(failure) => Err(failure),
        }
    } else if uri.opaque {
        Err(Failure { kind: ErrorKind::Validation, message: fixed_path_message() })
    } else {
        Ok((uri.with_path(parent(uri.path)), destination_filename(uri.path)))
    }
}

/// The text of a resolved destination or of the failure to resolve it.
pub open spec fn target_view(resolved: Result<(Uri, String), DownloadError>) -> Result<
    (UriText, Seq<char>),
    Failure,
> {
    match resolved {
        Ok((uri, path)) => Ok((uri@, path@)),
        Err(error) => Err(error@),
    }
}

/// Resolves the backend target and the object path of a download to `uri`.
pub fn resolve_uri_and_path(uri: Uri, response: &ResponseMetadata) -> (resolved: Result<
    (Uri, String),
    DownloadError,
>)
    ensures
        target_view(resolved) == resolved_uri_and_path(uri@, response@),
{
    let chars = chars_of(uri.path.as_str());
    if chars.len() == 0 || chars[chars.len() - 1] == '/' {
        return match filename_from_response(response) {
            Ok(name) => Ok((uri, name)),
            Err(error) => Err(error),
        };
    }
    if uri.opaque {
        return Err(
            DownloadError::new(ErrorKind::Validation, String::from_str("Cannot modify URL path")),
        );
    }
    let start = last_segment_start(&chars);
    let name = if chars[0] == '/' && start < chars.len() {
        slice_of(&chars, start, chars.len())
    } else {
        String::from_str("download")
    };
    let target = Uri {
        origin: uri.origin,
        path: slice_of(&chars, 0, start),
        rest: uri.rest,
        opaque: uri.opaque,
    };
    Ok((target, name))
}

/// A destination fails to resolve for want of a file name or because its
/// path cannot lose a segment; no retry mends either.
pub proof fn lemma_resolution_failure_is_terminal(uri: UriText, response: ResponseText)
    ensures
        resolved_uri_and_path(uri, response) matches Err(failure) ==> failure.kind.policy()
            == RetryPolicy::Terminal,
{
}

/// An object path that was resolved is never empty.
pub proof fn resolved_path_is_not_empty(uri: UriText, response: ResponseText)
    ensures
        resolved_uri_and_path(uri, response) matches Ok((_, path)) ==> path.len() > 0,
{
    reveal_strlit("download");
}

/// A destination that ends in a file name gives that name to the object, and
/// the target is the destination up to the separator before the name.
pub proof fn named_destination(uri: UriText, response: ResponseText)
    requires
        !uri.opaque,
        uri.path.len() > 0,
        uri.path[0] == '/',
        uri.path.last() != '/',
    ensures
        resolved_uri_and_path(uri, response) matches Ok((target, name)) && {
            &&& name.len() > 0
            &&& !name.contains('/')
            &&& target.path.last() == '/'
            &&& target.path + name == uri.path
            &&& target.origin == uri.origin
            &&& target.rest == uri.rest
        },
{
    lemma_segments_slash_free(uri.path);
    lemma_segments_nonempty(uri.path);
    lemma_last_segment_is_suffix(uri.path);
}

} // verus!
