//! What both kinds of download share: the request, the classification of the
//! response, the file name a response suggests, and the copy of the body into
//! the storage sink.

use crate::download::DownloadResult;
use crate::error::{explained, is_client_error, is_success, DownloadError, ErrorKind, Failure};
use crate::text::{decimal, decimal_string, eq_ignoring_case, opt_view, same_ignoring_case};
use crate::transfer::{Transfer, TransferText};
use crate::uri::{path_filename, Uri, UriText};
use std::time::Duration;
use vstd::prelude::*;
use vstd::string::StringExecFns;

verus! {

/// The text of each name and value of a list of headers.
pub open spec fn pairs(headers: Seq<(String, String)>) -> Seq<(Seq<char>, Seq<char>)> {
    headers.map_values(|h: (String, String)| (h.0@, h.1@))
}

/// The value of the first header whose name is `name`, whatever the case of
/// its ASCII letters.
pub open spec fn header_value(headers: Seq<(Seq<char>, Seq<char>)>, name: Seq<char>) -> Option<
    Seq<char>,
>
    decreases headers.len(),
{
    if headers.len() == 0 {
        None
    } else if same_ignoring_case(headers[0].0, name) {
        Some(headers[0].1)
    } else {
        header_value(headers.drop_first(), name)
    }
}

/// Looks a header up by its name.
pub fn find_header(headers: &Vec<(String, String)>, name: &str) -> (value: Option<String>)
    ensures
        opt_view(value) == header_value(pairs(headers@), name@),
{
    let ghost all = pairs(headers@);
    let mut i: usize = 0;
    proof {
        assert(all.skip(0) =~= all);
    }
    while i < headers.len()
        invariant
            i <= headers.len(),
            all == pairs(headers@),
            header_value(all, name@) == header_value(all.skip(i as int), name@),
        decreases headers.len() - i,
    {
        let header = &headers[i];
        proof {
            assert(all.skip(i as int)[0] == all[i as int]);
            assert(all.skip(i as int).drop_first() =~= all.skip(i + 1));
        }
        if eq_ignoring_case(header.0.as_str(), name) {
            return Some(header.1.clone());
        }
        i += 1;
    }
    None
}

/// Options of the outbound request.
#[derive(Clone, Debug)]
pub struct RequestOptions {
    /// Headers to send with the request. Where a name occurs twice, the later
    /// value is sent.
    pub headers: Vec<(String, String)>,
    /// How long to wait for the response headers.
    pub timeout: Option<Duration>,
}

/// How the content type of the stored object is chosen.
#[derive(Clone, Debug)]
pub struct OutputOptions {
    /// Whether to set a content type at all.
    pub set_content_type: bool,
    /// The content type to set; without it, the one the response declares.
    pub content_type: Option<String>,
}

/// The outcome of a download into a store that was fixed beforehand.
#[derive(Clone, Copy, Debug, PartialEq, Eq, Structural)]
pub struct DownloadResponse {
    pub size: u64,
}

impl DownloadResponse {
    /// The answer to a download into the fixed store: the size of the object.
    pub fn new(result: &DownloadResult) -> (response: DownloadResponse)
        ensures
            response.size == result.bytes_written,
    {
        DownloadResponse { size: result.bytes_written }
    }
}

/// What a response says of itself before its body is read.
#[derive(Clone, Debug)]
pub struct ResponseMetadata {
    pub status: u16,
    pub headers: Vec<(String, String)>,
    /// The URL that answered, after redirects.
    pub url: Uri,
}

/// A response as mathematical text.
pub struct ResponseText {
    pub status: u16,
    pub headers: Seq<(Seq<char>, Seq<char>)>,
    pub url: UriText,
}

impl View for ResponseMetadata {
    type V = ResponseText;

    open spec fn view(&self) -> ResponseText {
        ResponseText { status: self.status, headers: pairs(self.headers@), url: self.url@ }
    }
}

/// The file name that `content_disposition::parse_content_disposition`
/// reads from the value of a `Content-Disposition` header, as its
/// `filename_full` gives it: the `filename` parameter, or the decoded
/// `filename*` parameter where there is no plain one.
pub uninterp spec fn disposition_filename(header: Seq<char>) -> Option<Seq<char>>;

/// `content_disposition::parse_content_disposition` followed by
/// `ParsedContentDisposition::filename_full`. The contract only gives the
/// result its name.
#[verifier::external_body]
fn parse_disposition_filename(header: &str) -> (name: Option<String>)
    ensures
        opt_view(name) == disposition_filename(header@),
{
    content_disposition::parse_content_disposition(header).filename_full()
}

/// The file name that the headers of a response suggest.
pub open spec fn headers_filename(headers: Seq<(Seq<char>, Seq<char>)>) -> Option<Seq<char>> {
    match header_value(headers, "content-disposition"@) {
        Some(value) => disposition_filename(value),
        None => None,
    }
}

/// Reads the file name that the `Content-Disposition` header suggests, if
/// the header is there and suggests one.
pub fn filename_from_headers(headers: &Vec<(String, String)>) -> (name: Option<String>)
    ensures
        opt_view(name) == headers_filename(pairs(headers@)),
{
    match find_header(headers, "content-disposition") {
        Some(value) => parse_disposition_filename(value.as_str()),
        None => None,
    }
}

/// Reads the file name that the path of `url` ends in, if it ends in one.
pub fn filename_from_url(url: &Uri) -> (name: Option<String>)
    ensures
        opt_view(name) == path_filename(url@.path),
{
    url.filename()
}

/// The message of the failure to name the downloaded file.
pub open spec fn no_filename_message() -> Seq<char> {
    "Failed to determine filename from the response"@
}

/// The file name of a download, given what the headers suggest and what the
/// URL ends in: the first of the two that is there and not empty.
pub open spec fn chosen_filename(from_headers: Option<Seq<char>>, from_url: Option<Seq<char>>) -> Result<
    Seq<char>,
    Failure,
> {
    if from_headers is Some && from_headers->0.len() > 0 {
        Ok(from_headers->0)
    } else if from_url is Some && from_url->0.len() > 0 {
        Ok(from_url->0)
    } else {
        Err(Failure { kind: ErrorKind::Resolution, message: no_filename_message() })
    }
}

/// The text of a file name or the failure to find one.
pub open spec fn name_view(name: Result<String, DownloadError>) -> Result<Seq<char>, Failure> {
    match name {
        Ok(name) => Ok(name@),
        Err(error) => Err(error@),
    }
}

/// Picks the file name of a download: the name from the headers where there
/// is one, else the name from the URL; an empty name counts as none.
pub fn choose_filename(from_headers: Option<String>, from_url: Option<String>) -> (name: Result<
    String,
    DownloadError,
>)
    ensures
        name_view(name) == chosen_filename(opt_view(from_headers), opt_view(from_url)),
{
    if let Some(name) = from_headers {
        if name.as_str().unicode_len() > 0 {
            return Ok(name);
        }
    }
    if let Some(name) = from_url {
        if name.as_str().unicode_len() > 0 {
            return Ok(name);
        }
    }
    Err(
        DownloadError::new(
            ErrorKind::Resolution,
            String::from_str("Failed to determine filename from the response"),
        ),
    )
}

/// The file name of the body of `response`.
pub open spec fn response_filename(response: ResponseText) -> Result<Seq<char>, Failure> {
    chosen_filename(headers_filename(response.headers), path_filename(response.url.path))
}

/// A name that the headers suggest is taken whatever the URL ends in.
pub proof fn header_name_has_priority(response: ResponseText)
    requires
        headers_filename(response.headers) is Some,
        headers_filename(response.headers)->0.len() > 0,
    ensures
        response_filename(response) == Ok::<Seq<char>, Failure>(
            headers_filename(response.headers)->0,
        ),
{
}

/// A file name that was resolved is never empty.
pub proof fn filename_is_not_empty(response: ResponseText)
    ensures
        response_filename(response) matches Ok(name) ==> name.len() > 0,
{
}

/// Resolves the file name of the body of `response`: from its headers, else
/// from its URL. Without either the download fails for good.
pub fn filename_from_response(response: &ResponseMetadata) -> (name: Result<String, DownloadError>)
    ensures
        name_view(name) == response_filename(response@),
{
    let from_headers = filename_from_headers(&response.headers);
    let from_url = filename_from_url(&response.url);
    choose_filename(from_headers, from_url)
}

/// What the storage sink is opened with.
#[derive(Clone, Debug)]
pub struct WriterOptions {
    /// The path of the object to write.
    pub path: String,
    /// The content type to give the object, if any.
    pub content_type: Option<String>,
}

/// The options of a sink as mathematical text.
pub struct WriterText {
    pub path: Seq<char>,
    pub content_type: Option<Seq<char>>,
}

impl View for WriterOptions {
    type V = WriterText;

    open spec fn view(&self) -> WriterText {
        WriterText { path: self.path@, content_type: opt_view(self.content_type) }
    }
}

/// The content type of the stored object: none unless the options ask for
/// one; then the type they give, else the type the response declares, else
/// none.
pub open spec fn content_type_for(
    headers: Seq<(Seq<char>, Seq<char>)>,
    output: Option<OutputOptions>,
) -> Option<Seq<char>> {
    match output {
        Some(output) => if output.set_content_type {
            match output.content_type {
                Some(given) => Some(given@),
                None => header_value(headers, "content-type"@),
            }
        } else {
            None
        },
        None => None,
    }
}

/// Decides what the sink for `filepath` is opened with. The content type is
/// fixed here, once, before any chunk is written.
pub fn create_writer(
    headers: &Vec<(String, String)>,
    filepath: String,
    output: Option<OutputOptions>,
) -> (writer: WriterOptions)
    ensures
        writer@ == (WriterText {
            path: filepath@,
            content_type: content_type_for(pairs(headers@), output),
        }),
{
    let mut content_type: Option<String> = None;
    if let Some(output) = output {
        if output.set_content_type {
            content_type = match output.content_type {
                Some(given) => Some(given),
                None => find_header(headers, "content-type"),
            };
        }
    }
    WriterOptions { path: filepath, content_type }
}

/// Starts the copy of the body of `response` into the object at `filepath`:
/// the sink is to be opened with the content type that the options ask for.
pub fn process_download(
    response: &ResponseMetadata,
    filepath: String,
    output: Option<OutputOptions>,
) -> (transfer: Transfer)
    ensures
        transfer@ == (TransferText::Opening {
            writer: WriterText {
                path: filepath@,
                content_type: content_type_for(response@.headers, output),
            },
        }),
{
    Transfer::Opening { writer: create_writer(&response.headers, filepath, output) }
}

/// The message of a response outside the success range.
pub open spec fn status_message(status: u16) -> Seq<char> {
    "HTTP request failed with status: "@ + decimal(status as nat)
}

/// The failure of a request: by its status where a response arrived, a
/// transport failure with the given cause where none did.
pub open spec fn http_failure(status: Option<u16>, cause: Seq<char>) -> Failure {
    match status {
        Some(status) => Failure {
            kind: ErrorKind::HttpStatus(status),
            message: status_message(status),
        },
        None => Failure { kind: ErrorKind::Transport, message: cause },
    }
}

/// Turns a failed request into the failure of the download. A status in the
/// client range makes it terminal; any other status, and the lack of a
/// response, leave it retryable.
pub fn http_error(status: Option<u16>, cause: String) -> (error: DownloadError)
    ensures
        error@ == http_failure(status, cause@),
        error.terminal() == (status is Some && is_client_error(status->0)),
{
    match status {
        Some(status) => {
            let mut message = String::from_str("HTTP request failed with status: ");
            message.append(decimal_string(status).as_str());
            DownloadError::new(ErrorKind::HttpStatus(status), message)
        },
        None => DownloadError::new(ErrorKind::Transport, cause),
    }
}

/// The failure that the status of a response stands for, if any: none in
/// the success range, a failure by status everywhere else.
pub open spec fn status_failure(status: u16) -> Option<Failure> {
    if is_success(status) {
        None
    } else {
        Some(http_failure(Some(status), Seq::<char>::empty()))
    }
}

/// The text of the failure that a check found, if any.
pub open spec fn check_view(checked: Result<(), DownloadError>) -> Option<Failure> {
    match checked {
        Ok(_) => None,
        Err(error) => Some(error@),
    }
}

/// Classifies a response by the class of its status alone: the success range
/// passes, everything else fails.
pub fn check_status(status: u16) -> (checked: Result<(), DownloadError>)
    ensures
        check_view(checked) == status_failure(status),
{
    if 200 <= status && status < 300 {
        Ok(())
    } else {
        Err(http_error(Some(status), String::new()))
    }
}

/// The canonical form that `http::header::HeaderName::from_bytes` gives to
/// the name of a header; `None` where it refuses the name.
pub uninterp spec fn canonical_header_name(name: Seq<char>) -> Option<Seq<char>>;

/// `http::header::HeaderName::from_bytes` on the bytes of `name`, followed
/// by `HeaderName::as_str`. The contract only gives the result its name.
#[verifier::external_body]
fn parse_header_name(name: &str) -> (canonical: Option<String>)
    ensures
        opt_view(canonical) == canonical_header_name(name@),
{
    match http::header::HeaderName::from_bytes(name.as_bytes()) {
        Ok(name) => Some(name.as_str().to_string()),
        Err(_) => None,
    }
}

/// A character that may stand in the value of a header: a tab, or any
/// character from the space on but the delete character.
pub open spec fn is_header_value_char(c: char) -> bool {
    c == '\t' || (c >= ' ' && c != '\x7f')
}

/// Whether `value` may be sent as the value of a header.
pub open spec fn is_header_value(value: Seq<char>) -> bool {
    forall|i: int| 0 <= i < value.len() ==> is_header_value_char(#[trigger] value[i])
}

/// Whether `http::header::HeaderValue::from_str` accepts `value`. Its source
/// refuses a text exactly where one of its bytes is below 32 and no tab, or
/// is 127; the bytes of a character beyond ASCII are all above 127.
#[verifier::external_body]
fn header_value_accepted(value: &str) -> (accepted: bool)
    ensures
        accepted == is_header_value(value@),
{
    http::header::HeaderValue::from_str(value).is_ok()
}

/// The place of the first entry of `map` under `name`; the length of `map`
/// where there is none.
pub open spec fn place(map: Seq<(Seq<char>, Seq<char>)>, name: Seq<char>) -> int
    decreases map.len(),
{
    if map.len() == 0 {
        0
    } else if map[0].0 == name {
        0
    } else {
        1 + place(map.drop_first(), name)
    }
}

/// `map` with `value` under `name`: in place of the value that was there, or
/// as a new entry at the end.
pub open spec fn inserted(
    map: Seq<(Seq<char>, Seq<char>)>,
    name: Seq<char>,
    value: Seq<char>,
) -> Seq<(Seq<char>, Seq<char>)> {
    let at = place(map, name);
    if at < map.len() {
        map.update(at, (name, value))
    } else {
        map.push((name, value))
    }
}

/// Whether no two entries of `map` have the same name.
pub open spec fn unique_names(map: Seq<(Seq<char>, Seq<char>)>) -> bool {
    forall|i: int, j: int|
        0 <= i < map.len() && 0 <= j < map.len() && i != j ==> (#[trigger] map[i]).0 != (
        #[trigger] map[j]).0
}

/// Where `place` points.
pub proof fn lemma_place(map: Seq<(Seq<char>, Seq<char>)>, name: Seq<char>)
    ensures
        0 <= place(map, name) <= map.len(),
        place(map, name) < map.len() ==> map[place(map, name)].0 == name,
        forall|j: int| 0 <= j < place(map, name) ==> (#[trigger] map[j]).0 != name,
    decreases map.len(),
{
    if map.len() > 0 && map[0].0 != name {
        let rest = map.drop_first();
        lemma_place(rest, name);
        assert forall|j: int| 0 <= j < place(map, name) implies (#[trigger] map[j]).0 != name by {
            if j > 0 {
                assert(map[j] == rest[j - 1]);
            }
        }
    }
}

/// Puts `value` under `name`, in place of an earlier value of that name.
pub fn insert_header(map: &mut Vec<(String, String)>, name: String, value: String)
    ensures
        pairs(final(map)@) == inserted(pairs(old(map)@), name@, value@),
{
    let ghost before = pairs(map@);
    let mut i: usize = 0;
    proof {
        assert(before.skip(0) =~= before);
    }
    while i < map.len()
        invariant
            i <= map.len(),
            before == pairs(map@),
            map@ == old(map)@,
            place(before, name@) == i + place(before.skip(i as int), name@),
        decreases map.len() - i,
    {
        proof {
            assert(before.skip(i as int)[0] == before[i as int]);
            assert(before.skip(i as int).drop_first() =~= before.skip(i + 1));
        }
        if map[i].0 == name {
            map.set(i, (name, value));
            proof {
                assert(pairs(map@) =~= before.update(i as int, (name@, value@)));
            }
            return ;
        }
        i += 1;
    }
    map.push((name, value));
    proof {
        assert(pairs(map@) =~= before.push((name@, value@)));
    }
}

/// The message of a refused header name.
pub open spec fn bad_name_message(name: Seq<char>) -> Seq<char> {
    explained("Invalid HTTP header name"@, name)
}

/// The message of a refused header value; it names the header, not the value.
pub open spec fn bad_value_message(name: Seq<char>) -> Seq<char> {
    explained("Invalid value of HTTP header"@, name)
}

/// The headers to send for the given entries, each under its canonical name;
/// the failure of the first entry whose name or value is refused.
pub open spec fn header_map(entries: Seq<(Seq<char>, Seq<char>)>) -> Result<
    Seq<(Seq<char>, Seq<char>)>,
    Failure,
>
    decreases entries.len(),
{
    if entries.len() == 0 {
        Ok(Seq::<(Seq<char>, Seq<char>)>::empty())
    } else {
        let entry = entries.last();
        match header_map(entries.drop_last()) {
            Ok(map) => match canonical_header_name(entry.0) {
                Some(name) => if is_header_value(entry.1) {
                    Ok(inserted(map, name, entry.1))
                } else {
                    Err(
                        Failure {
                            kind: ErrorKind::Validation,
                            message: bad_value_message(entry.0),
                        },
                    )
                },
                None => Err(
                    Failure { kind: ErrorKind::Validation, message: bad_name_message(entry.0) },
                ),
            },
            Err(failure) => Err(failure),
        }
    }
}

/// Entries that are refused stay refused, for the same reason, whatever
/// follows them.
pub proof fn lemma_header_map_refused(entries: Seq<(Seq<char>, Seq<char>)>, n: int)
    requires
        0 <= n <= entries.len(),
        header_map(entries.take(n)) is Err,
    ensures
        header_map(entries) == header_map(entries.take(n)),
    decreases entries.len(),
{
    if n < entries.len() {
        assert(entries.drop_last().take(n) =~= entries.take(n));
        lemma_header_map_refused(entries.drop_last(), n);
    } else {
        assert(entries.take(n) =~= entries);
    }
}

/// A refusal is a failure of validation.
pub proof fn header_map_failure_kind(entries: Seq<(Seq<char>, Seq<char>)>)
    ensures
        header_map(entries) is Err ==> header_map(entries)->Err_0.kind == ErrorKind::Validation,
    decreases entries.len(),
{
    if entries.len() > 0 {
        header_map_failure_kind(entries.drop_last());
    }
}

/// Putting a value under a name keeps the names apart.
pub proof fn lemma_inserted_unique(
    map: Seq<(Seq<char>, Seq<char>)>,
    name: Seq<char>,
    value: Seq<char>,
)
    requires
        unique_names(map),
    ensures
        unique_names(inserted(map, name, value)),
{
    lemma_place(map, name);
}

/// No name occurs twice among the headers to send.
pub proof fn header_map_unique(entries: Seq<(Seq<char>, Seq<char>)>)
    ensures
        header_map(entries) is Ok ==> unique_names(header_map(entries)->Ok_0),
    decreases entries.len(),
{
    if entries.len() > 0 {
        header_map_unique(entries.drop_last());
        if header_map(entries) is Ok {
            lemma_inserted_unique(
                header_map(entries.drop_last())->Ok_0,
                canonical_header_name(entries.last().0)->0,
                entries.last().1,
            );
        }
    }
}

/// The text of a list of headers or of the failure to make one.
pub open spec fn map_view(map: Result<Vec<(String, String)>, DownloadError>) -> Result<
    Seq<(Seq<char>, Seq<char>)>,
    Failure,
> {
    match map {
        Ok(map) => Ok(pairs(map@)),
        Err(error) => Err(error@),
    }
}

impl RequestOptions {
    /// Validates the headers and brings them into the form in which they are
    /// sent. Fails on the first entry whose name or value is refused.
    pub fn header_map(&self) -> (map: Result<Vec<(String, String)>, DownloadError>)
        ensures
            map_view(map) == header_map(pairs(self.headers@)),
    {
        let ghost entries = pairs(self.headers@);
        let mut map: Vec<(String, String)> = Vec::new();
        let mut i: usize = 0;
        proof {
            assert(entries.take(0) =~= Seq::<(Seq<char>, Seq<char>)>::empty());
            assert(pairs(map@) =~= Seq::<(Seq<char>, Seq<char>)>::empty());
        }
        while i < self.headers.len()
            invariant
                i <= self.headers.len(),
                entries == pairs(self.headers@),
                header_map(entries.take(i as int)) == Ok::<_, Failure>(pairs(map@)),
            decreases self.headers.len() - i,
        {
            let entry = &self.headers[i];
            proof {
                assert(entries.take(i + 1).drop_last() =~= entries.take(i as int));
                assert(entries.take(i + 1).last() == entries[i as int]);
            }
            match parse_header_name(entry.0.as_str()) {
                Some(name) => {
                    if !header_value_accepted(entry.1.as_str()) {
                        proof {
                            lemma_header_map_refused(entries, i + 1);
                        }
                        return Err(
                            DownloadError::with_cause(
                                ErrorKind::Validation,
                                "Invalid value of HTTP header",
                                entry.0.as_str(),
                            ),
                        );
                    }
                    insert_header(&mut map, name, entry.1.clone());
                },
                None => {
                    proof {
                        lemma_header_map_refused(entries, i + 1);
                    }
                    return Err(
                        DownloadError::with_cause(
                            ErrorKind::Validation,
                            "Invalid HTTP header name",
                            entry.0.as_str(),
                        ),
                    );
                },
            }
            i += 1;
        }
        proof {
            assert(entries.take(i as int) =~= entries);
        }
        Ok(map)
    }
}

/// An outbound GET request, ready to be sent.
#[derive(Clone, Debug)]
pub struct RequestSpec {
    pub url: Uri,
    /// The headers to send: canonical names, each at most once.
    pub headers: Vec<(String, String)>,
    /// The limit on the wait for the response headers, for this request only.
    pub timeout: Option<Duration>,
}

/// A request as mathematical text.
pub struct RequestText {
    pub url: UriText,
    pub headers: Seq<(Seq<char>, Seq<char>)>,
    pub timeout: Option<Duration>,
}

impl View for RequestSpec {
    type V = RequestText;

    open spec fn view(&self) -> RequestText {
        RequestText { url: self.url@, headers: pairs(self.headers@), timeout: self.timeout }
    }
}

/// The request for `url` under `options`, or the failure of the first header
/// that is refused.
pub open spec fn request_for(url: UriText, options: Option<RequestOptions>) -> Result<
    RequestText,
    Failure,
> {
    match options {
        Some(options) => match header_map(pairs(options.headers@)) {
            Ok(headers) => Ok(RequestText { url, headers, timeout: options.timeout }),
            Err(failure) => Err(failure),
        },
        None => Ok(
            RequestText {
                url,
                headers: Seq::<(Seq<char>, Seq<char>)>::empty(),
                timeout: None,
            },
        ),
    }
}

/// The text of a request or of the failure to make one.
pub open spec fn request_view(request: Result<RequestSpec, DownloadError>) -> Result<
    RequestText,
    Failure,
> {
    match request {
        Ok(request) => Ok(request@),
        Err(error) => Err(error@),
    }
}

/// Assembles the request for `url`. A header whose name or value is refused
/// fails the download before anything is sent.
pub fn create_request(url: Uri, options: Option<RequestOptions>) -> (request: Result<
    RequestSpec,
    DownloadError,
>)
    ensures
        request_view(request) == request_for(url@, options),
{
    match options {
        Some(options) => match options.header_map() {
            Ok(headers) => Ok(RequestSpec { url, headers, timeout: options.timeout }),
            Err(error) => Err(error),
        },
        None => {
            let headers: Vec<(String, String)> = Vec::new();
            proof {
                assert(pairs(headers@) =~= Seq::<(Seq<char>, Seq<char>)>::empty());
            }
            Ok(RequestSpec { url, headers, timeout: None })
        },
    }
}

/// A request that was assembled sends each header name at most once, and a
/// request that was refused failed validation.
pub proof fn request_for_is_valid(url: UriText, options: Option<RequestOptions>)
    ensures
        match request_for(url, options) {
            Ok(request) => unique_names(request.headers),
            Err(failure) => failure.kind == ErrorKind::Validation,
        },
{
    if let Some(options) = options {
        header_map_unique(pairs(options.headers@));
        header_map_failure_kind(pairs(options.headers@));
    }
}

} // verus!
