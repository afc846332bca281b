//! One download from its request to its result.
//!
//! A download passes through these stages: the request is built and sent, the
//! response is classified, the destination is resolved, the sink is opened,
//! the body is streamed into it, and the sink is closed. The library rests
//! where the outside world has to act: with the request built, during the
//! transfer, and at the end. Classification and resolution need nothing from
//! outside and happen in the step that takes the response.

use crate::common::{
    check_status, content_type_for, create_request, http_error, http_failure, process_download,
    request_for, status_failure, OutputOptions, RequestOptions, RequestSpec, RequestText,
    ResponseMetadata, ResponseText, WriterText,
};
use crate::error::{is_client_error, is_success, DownloadError, ErrorKind, Failure, RetryPolicy};
use crate::transfer::{
    copied, stream_file, total, Action, Event, EventText, Transfer, TransferText,
};
use crate::uri::{opt_uri, Uri, UriText};
use crate::with_store::{self, opt_path, resolve_filepath, resolved_filepath, PosixPath};
use crate::without_store::{self, resolve_uri_and_path, resolved_uri_and_path};
use vstd::prelude::*;

verus! {

/// Where a download goes.
#[derive(Clone, Debug)]
pub enum Destination {
    /// Into the store that was fixed beforehand, at the given path if any.
    Bound { path: Option<PosixPath> },
    /// Into the store and at the path that the URI names.
    Unbound { uri: Uri },
}

/// A destination as mathematical text.
pub enum DestinationText {
    Bound { path: Option<Seq<char>> },
    Unbound { uri: UriText },
}

impl View for Destination {
    type V = DestinationText;

    open spec fn view(&self) -> DestinationText {
        match *self {
            Destination::Bound { path } => DestinationText::Bound { path: opt_path(path) },
            Destination::Unbound { uri } => DestinationText::Unbound { uri: uri@ },
        }
    }
}

/// Where the object of a download is written.
#[derive(Clone, Debug)]
pub struct ResolvedTarget {
    /// The backend to connect to; none where the store was fixed beforehand.
    pub backend: Option<Uri>,
    /// The path of the object inside the backend.
    pub object_path: String,
}

/// A resolved target as mathematical text.
pub struct TargetText {
    pub backend: Option<UriText>,
    pub object_path: Seq<char>,
}

impl View for ResolvedTarget {
    type V = TargetText;

    open spec fn view(&self) -> TargetText {
        TargetText { backend: opt_uri(self.backend), object_path: self.object_path@ }
    }
}

/// The result of a download that succeeded.
#[derive(Clone, Debug)]
pub struct DownloadResult {
    /// The sum of the lengths of the chunks that were read and written.
    pub bytes_written: u64,
    /// The path of the object that was written.
    pub resolved_path: String,
}

/// A result as mathematical text.
pub struct ResultText {
    pub bytes_written: nat,
    pub resolved_path: Seq<char>,
}

impl View for DownloadResult {
    type V = ResultText;

    open spec fn view(&self) -> ResultText {
        ResultText {
            bytes_written: self.bytes_written as nat,
            resolved_path: self.resolved_path@,
        }
    }
}

impl DestinationText {
    /// The target of a download to this destination, given the response.
    pub open spec fn resolved(self, response: ResponseText) -> Result<TargetText, Failure> {
        match self {
            DestinationText::Bound { path } => match resolved_filepath(path, response) {
                Ok(object_path) => Ok(TargetText { backend: None, object_path }),
                Err(failure) => Err(failure),
            },
            DestinationText::Unbound { uri } => match resolved_uri_and_path(uri, response) {
                Ok((backend, object_path)) => Ok(
                    TargetText { backend: Some(backend), object_path },
                ),
                Err(failure) => Err(failure),
            },
        }
    }
}

/// The text of a target or of the failure to resolve one.
pub open spec fn resolution_view(resolved: Result<ResolvedTarget, DownloadError>) -> Result<
    TargetText,
    Failure,
> {
    match resolved {
        Ok(target) => Ok(target@),
        Err(error) => Err(error@),
    }
}

impl Destination {
    /// Resolves the target of a download to this destination.
    pub fn resolve(self, response: &ResponseMetadata) -> (resolved: Result<
        ResolvedTarget,
        DownloadError,
    >)
        ensures
            resolution_view(resolved) == self@.resolved(response@),
    {
        match self {
            Destination::Bound { path } => match resolve_filepath(path, response) {
                Ok(object_path) => Ok(ResolvedTarget { backend: None, object_path }),
                Err(error) => Err(error),
            },
            Destination::Unbound { uri } => match resolve_uri_and_path(uri, response) {
                Ok((backend, object_path)) => Ok(
                    ResolvedTarget { backend: Some(backend), object_path },
                ),
                Err(error) => Err(error),
            },
        }
    }
}

/// The state of a download.
#[derive(Clone, Debug)]
pub enum Download {
    /// The request is built and is to be sent.
    Built { request: RequestSpec, destination: Destination, output: Option<OutputOptions> },
    /// The response was accepted and the target resolved; the body is on its
    /// way into the sink. The target does not change any more.
    Transferring { target: ResolvedTarget, transfer: Transfer },
    /// The sink was closed: the download succeeded.
    Finalized { result: DownloadResult },
    /// The download failed. It stays failed, whatever is reported later.
    Failed { error: DownloadError },
}

/// The state of a download as mathematical text.
pub enum DownloadText {
    Built { request: RequestText, destination: DestinationText, output: Option<OutputOptions> },
    Transferring { target: TargetText, transfer: TransferText },
    Finalized { result: ResultText },
    Failed { error: Failure },
}

impl View for Download {
    type V = DownloadText;

    open spec fn view(&self) -> DownloadText {
        match *self {
            Download::Built { request, destination, output } => DownloadText::Built {
                request: request@,
                destination: destination@,
                output,
            },
            Download::Transferring { target, transfer } => DownloadText::Transferring {
                target: target@,
                transfer: transfer@,
            },
            Download::Finalized { result } => DownloadText::Finalized { result: result@ },
            Download::Failed { error } => DownloadText::Failed { error: error@ },
        }
    }
}

/// The state in which a download starts: built, or failed where a header of
/// the request is refused.
pub open spec fn started(
    url: UriText,
    options: Option<RequestOptions>,
    destination: DestinationText,
    output: Option<OutputOptions>,
) -> DownloadText {
    match request_for(url, options) {
        Ok(request) => DownloadText::Built { request, destination, output },
        Err(error) => DownloadText::Failed { error },
    }
}

/// The state that follows the arrival of `response`: failed where its status
/// is outside the success range or the destination cannot be resolved, else
/// ready to open the sink at the resolved target.
pub open spec fn answered(
    destination: DestinationText,
    output: Option<OutputOptions>,
    response: ResponseText,
) -> DownloadText {
    match status_failure(response.status) {
        Some(error) => DownloadText::Failed { error },
        None => match destination.resolved(response) {
            Ok(target) => DownloadText::Transferring {
                target,
                transfer: TransferText::Opening {
                    writer: WriterText {
                        path: target.object_path,
                        content_type: content_type_for(response.headers, output),
                    },
                },
            },
            Err(error) => DownloadText::Failed { error },
        },
    }
}

/// The state of a download whose transfer has moved to `transfer`.
pub open spec fn transferred(target: TargetText, transfer: TransferText) -> DownloadText {
    match transfer {
        TransferText::Done { written } => DownloadText::Finalized {
            result: ResultText { bytes_written: written, resolved_path: target.object_path },
        },
        TransferText::Failed { error } => DownloadText::Failed { error },
        _ => DownloadText::Transferring { target, transfer },
    }
}

impl DownloadText {
    /// The action that is due in this state.
    pub open spec fn action(self) -> Action {
        match self {
            DownloadText::Built { .. } => Action::Send,
            DownloadText::Transferring { transfer, .. } => transfer.action(),
            DownloadText::Finalized { .. } => Action::Finish,
            DownloadText::Failed { .. } => Action::Fail,
        }
    }

    /// The state after `event`. An event that does not answer the action that
    /// is due leaves the state as it is.
    pub open spec fn next(self, event: EventText) -> DownloadText {
        match self {
            DownloadText::Built { destination, output, .. } => match event {
                EventText::Response { response } => answered(destination, output, response),
                EventText::Failed { cause } => DownloadText::Failed {
                    error: http_failure(None, cause),
                },
                _ => self,
            },
            DownloadText::Transferring { target, transfer } => transferred(
                target,
                transfer.next(event),
            ),
            _ => self,
        }
    }

    /// The state after each of `events` in turn.
    pub open spec fn run(self, events: Seq<EventText>) -> DownloadText
        decreases events.len(),
    {
        if events.len() == 0 {
            self
        } else {
            self.run(events.drop_last()).next(events.last())
        }
    }

    /// Whether the byte count after `event` still fits the counter.
    pub open spec fn fits(self, event: EventText) -> bool {
        self matches DownloadText::Transferring { transfer, .. } ==> transfer.fits(event)
    }

    /// Whether the state is one in which a download rests: during a transfer
    /// the copy is neither finished nor failed, since either ends the
    /// download.
    pub open spec fn wf(self) -> bool {
        self matches DownloadText::Transferring { transfer, .. } ==> !(transfer is Done)
            && !(transfer is Failed)
    }
}

impl Download {
    /// Builds the request of a download. A header that is refused fails the
    /// download before anything is sent.
    pub fn new(
        url: Uri,
        options: Option<RequestOptions>,
        destination: Destination,
        output: Option<OutputOptions>,
    ) -> (download: Download)
        ensures
            download@ == started(url@, options, destination@, output),
            download@.wf(),
    {
        match create_request(url, options) {
            Ok(request) => Download::Built { request, destination, output },
            Err(error) => Download::Failed { error },
        }
    }

    /// Whether the byte count after `event` still fits the counter, so that
    /// the event can be taken.
    pub fn can_take(&self, event: &Event) -> (fits: bool)
        ensures
            fits == self@.fits(event@),
    {
        match self {
            Download::Transferring { transfer, .. } => transfer.can_take(event),
            _ => true,
        }
    }

    /// The action that is due in this state.
    pub fn action(&self) -> (action: Action)
        ensures
            action == self@.action(),
    {
        match self {
            Download::Built { .. } => Action::Send,
            Download::Transferring { transfer, .. } => transfer.action(),
            Download::Finalized { .. } => Action::Finish,
            Download::Failed { .. } => Action::Fail,
        }
    }

    /// Takes the outcome of the action that was due and moves the download on.
    pub fn step(self, event: Event) -> (next: Download)
        requires
            self@.fits(event@),
        ensures
            next@ == self@.next(event@),
            self@.wf() ==> next@.wf(),
    {
        match self {
            Download::Built { request, destination, output } => match event {
                Event::Response { response } => match check_status(response.status) {
                    Ok(_) => match destination.resolve(&response) {
                        Ok(target) => {
                            let transfer = process_download(
                                &response,
                                target.object_path.clone(),
                                output,
                            );
                            Download::Transferring { target, transfer }
                        },
                        Err(error) => Download::Failed { error },
                    },
                    Err(error) => Download::Failed { error },
                },
                Event::Failed { cause } => Download::Failed { error: http_error(None, cause) },
                _ => Download::Built { request, destination, output },
            },
            Download::Transferring { target, transfer } => {
                match stream_file(transfer, event) {
                    Transfer::Done { written } => Download::Finalized {
                        result: DownloadResult {
                            bytes_written: written,
                            resolved_path: target.object_path,
                        },
                    },
                    Transfer::Failed { error } => Download::Failed { error },
                    transfer => Download::Transferring { target, transfer },
                }
            },
            Download::Finalized { result } => Download::Finalized { result },
            Download::Failed { error } => Download::Failed { error },
        }
    }
}

/// A download that failed or was finalized stays as it is.
pub proof fn download_end_is_absorbing(state: DownloadText, event: EventText)
    requires
        state is Finalized || state is Failed,
    ensures
        state.next(event) == state,
{
}

/// A response outside the success range fails the download by the class of
/// its status alone: terminally for a client error, retryably for any other.
/// Where no response arrives at all, the failure is retryable.
pub proof fn response_classes(state: DownloadText, response: ResponseText, cause: Seq<char>)
    requires
        state is Built,
    ensures
        !is_success(response.status) ==> {
            let next = state.next(EventText::Response { response });
            &&& next is Failed
            &&& next->error.kind == ErrorKind::HttpStatus(response.status)
            &&& next->error.kind.policy() == (if is_client_error(response.status) {
                RetryPolicy::Terminal
            } else {
                RetryPolicy::Retryable
            })
        },
        is_success(response.status) ==> {
            let next = state.next(EventText::Response { response });
            next is Transferring || (next is Failed && next->error.kind.policy()
                == RetryPolicy::Terminal)
        },
        state.next(EventText::Failed { cause }) is Failed,
        state.next(EventText::Failed { cause })->error.kind.policy() == RetryPolicy::Retryable,
{
    if is_success(response.status) {
        let destination = state->destination;
        match destination {
            DestinationText::Bound { path } => {
                with_store::lemma_resolution_failure_is_terminal(path, response);
            },
            DestinationText::Unbound { uri } => {
                without_store::lemma_resolution_failure_is_terminal(uri, response);
            },
        }
    }
}

/// While chunks are read and written in turn, the download stays in its
/// transfer and counts their lengths.
pub proof fn lemma_transfer_copies(target: TargetText, written: nat, chunks: Seq<u64>)
    ensures
        (DownloadText::Transferring {
            target,
            transfer: TransferText::Reading { written },
        }).run(copied(chunks)) == (DownloadText::Transferring {
            target,
            transfer: TransferText::Reading { written: (written + total(chunks)) as nat },
        }),
    decreases chunks.len(),
{
    let start = DownloadText::Transferring { target, transfer: TransferText::Reading { written } };
    if chunks.len() > 0 {
        lemma_transfer_copies(target, written, chunks.drop_last());
        let read = copied(chunks).drop_last();
        assert(read.drop_last() =~= copied(chunks.drop_last()));
        assert(start.run(read) == start.run(read.drop_last()).next(read.last()));
    }
}

/// Running over events in two parts is running over all of them.
pub proof fn lemma_run_append(state: DownloadText, first: Seq<EventText>, second: Seq<EventText>)
    ensures
        state.run(first + second) == state.run(first).run(second),
    decreases second.len(),
{
    if second.len() == 0 {
        assert(first + second =~= first);
    } else {
        lemma_run_append(state, first, second.drop_last());
        assert((first + second).drop_last() =~= first + second.drop_last());
        assert((first + second).last() == second.last());
    }
}

/// The result of a download reports the exact sum of the lengths of the
/// chunks of the body, whatever their number, and the path that was resolved
/// before the sink was opened. Nothing that the response declares of its
/// length enters the count.
pub proof fn result_counts_the_chunks(state: DownloadText, response: ResponseText, chunks: Seq<u64>)
    requires
        state is Built,
        state.next(EventText::Response { response }) is Transferring,
    ensures
        state.next(EventText::Response { response }).run(
            seq![EventText::Opened] + copied(chunks) + seq![
                EventText::EndOfBody,
                EventText::Closed,
            ],
        ) == (DownloadText::Finalized {
            result: ResultText {
                bytes_written: total(chunks),
                resolved_path: state.next(EventText::Response { response })->target.object_path,
            },
        }),
{
    let resolved = state.next(EventText::Response { response });
    let target = resolved->target;
    let open = seq![EventText::Opened];
    let end = seq![EventText::EndOfBody, EventText::Closed];
    let reading = DownloadText::Transferring {
        target,
        transfer: TransferText::Reading { written: 0 },
    };
    assert(resolved.run(open) == reading) by {
        assert(open.drop_last() =~= Seq::<EventText>::empty());
        assert(resolved.run(open) == resolved.run(open.drop_last()).next(EventText::Opened));
    }
    lemma_run_append(resolved, open, copied(chunks));
    lemma_transfer_copies(target, 0, chunks);
    lemma_run_append(resolved, open + copied(chunks), end);
    let copying = reading.run(copied(chunks));
    assert(end.drop_last() =~= seq![EventText::EndOfBody]);
    assert(end.drop_last().drop_last() =~= Seq::<EventText>::empty());
    assert(copying.run(end.drop_last()) == copying.run(end.drop_last().drop_last()).next(
        EventText::EndOfBody,
    ));
}

/// The object path of a target that was resolved is never empty.
pub proof fn resolved_target_is_not_empty(destination: DestinationText, response: ResponseText)
    ensures
        destination.resolved(response) matches Ok(target) ==> target.object_path.len() > 0,
{
    match destination {
        DestinationText::Bound { path } => {
            with_store::resolved_filepath_is_not_empty(path, response);
        },
        DestinationText::Unbound { uri } => {
            without_store::resolved_path_is_not_empty(uri, response);
        },
    }
}

/// The target of a download is resolved once: while the transfer runs it
/// stays what it was, and the result names the path that was resolved.
pub proof fn target_is_fixed(state: DownloadText, event: EventText)
    requires
        state is Transferring,
    ensures
        match state.next(event) {
            DownloadText::Transferring { target, .. } => target == state->target,
            DownloadText::Finalized { result } => result.resolved_path
                == state->target.object_path,
            DownloadText::Failed { .. } => true,
            DownloadText::Built { .. } => false,
        },
{
}

/// Only the successful close of the sink finalizes a download, and the result
/// then reports the bytes that the transfer counted.
pub proof fn only_close_finalizes(state: DownloadText, event: EventText)
    requires
        state.wf(),
        !(state is Finalized),
        state.next(event) is Finalized,
    ensures
        event is Closed,
        state matches DownloadText::Transferring { transfer, .. } && transfer is Closing
            && state.next(event)->result.bytes_written == transfer->Closing_written,
{
}

} // verus!
