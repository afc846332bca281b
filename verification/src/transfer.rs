//! The copy of a response body into a storage sink, one step at a time.
//!
//! The library never touches the network or the store. It keeps the state of
//! the copy, says which action is due, and takes the outcome of that action
//! as an event. Chunks are read and written in strict alternation: the next
//! chunk is asked for only after the last one was written.

use crate::common::{ResponseMetadata, ResponseText, WriterOptions, WriterText};
use crate::error::{explained, DownloadError, ErrorKind, Failure};
use vstd::prelude::*;

verus! {

/// What the caller is asked to do next.
#[derive(Clone, Copy, Debug, PartialEq, Eq, Structural)]
pub enum Action {
    /// Send the request and wait for the response headers.
    Send,
    /// Open the sink.
    Open,
    /// Read the next chunk of the body.
    Read,
    /// Write the chunk that was just read.
    Write,
    /// Close the sink, which makes the object durable.
    Close,
    /// Report the success of the download.
    Finish,
    /// Report the failure of the download.
    Fail,
}

/// The outcome of the action that was due.
#[derive(Clone, Debug)]
pub enum Event {
    /// The response headers arrived.
    Response { response: ResponseMetadata },
    /// The sink is open.
    Opened,
    /// A chunk of `len` bytes was read.
    Chunk { len: u64 },
    /// The body has no more chunks.
    EndOfBody,
    /// The chunk was written.
    Written,
    /// The sink was closed.
    Closed,
    /// The action failed, for the given reason.
    Failed { cause: String },
}

/// An event as mathematical text.
pub enum EventText {
    Response { response: ResponseText },
    Opened,
    Chunk { len: u64 },
    EndOfBody,
    Written,
    Closed,
    Failed { cause: Seq<char> },
}

impl View for Event {
    type V = EventText;

    open spec fn view(&self) -> EventText {
        match *self {
            Event::Response { response } => EventText::Response { response: response@ },
            Event::Opened => EventText::Opened,
            Event::Chunk { len } => EventText::Chunk { len },
            Event::EndOfBody => EventText::EndOfBody,
            Event::Written => EventText::Written,
            Event::Closed => EventText::Closed,
            Event::Failed { cause } => EventText::Failed { cause: cause@ },
        }
    }
}

/// The state of a copy.
#[derive(Clone, Debug)]
pub enum Transfer {
    /// The sink is to be opened with the given options.
    Opening { writer: WriterOptions },
    /// The sink is open and holds `written` bytes; the next chunk is awaited.
    Reading { written: u64 },
    /// A chunk was read and is being written; `written` counts it already.
    Writing { written: u64 },
    /// The body is exhausted and the sink is being closed.
    Closing { written: u64 },
    /// The sink was closed: the object holds `written` bytes.
    Done { written: u64 },
    /// The copy failed. What was written stays in the sink, which is left open.
    Failed { error: DownloadError },
}

/// The state of a copy as mathematical text. Byte counts have no bound here.
pub enum TransferText {
    Opening { writer: WriterText },
    Reading { written: nat },
    Writing { written: nat },
    Closing { written: nat },
    Done { written: nat },
    Failed { error: Failure },
}

impl View for Transfer {
    type V = TransferText;

    open spec fn view(&self) -> TransferText {
        match *self {
            Transfer::Opening { writer } => TransferText::Opening { writer: writer@ },
            Transfer::Reading { written } => TransferText::Reading { written: written as nat },
            Transfer::Writing { written } => TransferText::Writing { written: written as nat },
            Transfer::Closing { written } => TransferText::Closing { written: written as nat },
            Transfer::Done { written } => TransferText::Done { written: written as nat },
            Transfer::Failed { error } => TransferText::Failed { error: error@ },
        }
    }
}

/// The failure of the sink to open.
pub open spec fn open_failure(cause: Seq<char>) -> Failure {
    Failure {
        kind: ErrorKind::Storage,
        message: explained("Failed to create storage writer"@, cause),
    }
}

/// The failure of the body to yield its next chunk.
pub open spec fn read_failure(cause: Seq<char>) -> Failure {
    Failure {
        kind: ErrorKind::Transport,
        message: explained("Failed to read chunk from HTTP response"@, cause),
    }
}

/// The failure of the sink to take a chunk.
pub open spec fn write_failure(cause: Seq<char>) -> Failure {
    Failure {
        kind: ErrorKind::Storage,
        message: explained("Failed to write chunk to storage"@, cause),
    }
}

/// The failure of the sink to close.
pub open spec fn close_failure(cause: Seq<char>) -> Failure {
    Failure {
        kind: ErrorKind::Storage,
        message: explained("Failed to finalize storage upload"@, cause),
    }
}

impl TransferText {
    /// The action that is due in this state.
    pub open spec fn action(self) -> Action {
        match self {
            TransferText::Opening { .. } => Action::Open,
            TransferText::Reading { .. } => Action::Read,
            TransferText::Writing { .. } => Action::Write,
            TransferText::Closing { .. } => Action::Close,
            TransferText::Done { .. } => Action::Finish,
            TransferText::Failed { .. } => Action::Fail,
        }
    }

    /// The state after `event`. An event that does not answer the action that
    /// is due leaves the state as it is.
    pub open spec fn next(self, event: EventText) -> TransferText {
        match (self, event) {
            (TransferText::Opening { .. }, EventText::Opened) => TransferText::Reading {
                written: 0,
            },
            (TransferText::Opening { .. }, EventText::Failed { cause }) => TransferText::Failed {
                error: open_failure(cause),
            },
            (TransferText::Reading { written }, EventText::Chunk { len }) => TransferText::Writing {
                written: (written + len) as nat,
            },
            (TransferText::Reading { written }, EventText::EndOfBody) => TransferText::Closing {
                written,
            },
            (TransferText::Reading { .. }, EventText::Failed { cause }) => TransferText::Failed {
                error: read_failure(cause),
            },
            (TransferText::Writing { written }, EventText::Written) => TransferText::Reading {
                written,
            },
            (TransferText::Writing { .. }, EventText::Failed { cause }) => TransferText::Failed {
                error: write_failure(cause),
            },
            (TransferText::Closing { written }, EventText::Closed) => TransferText::Done {
                written,
            },
            (TransferText::Closing { .. }, EventText::Failed { cause }) => TransferText::Failed {
                error: close_failure(cause),
            },
            _ => self,
        }
    }

    /// The state after each of `events` in turn.
    pub open spec fn run(self, events: Seq<EventText>) -> TransferText
        decreases events.len(),
    {
        if events.len() == 0 {
            self
        } else {
            self.run(events.drop_last()).next(events.last())
        }
    }

    /// Whether the byte count after `event` still fits the counter.
    pub open spec fn fits(self, event: EventText) -> bool {
        self matches TransferText::Reading { written } ==> (event matches EventText::Chunk {
            len,
        } ==> written + len <= u64::MAX)
    }
}

impl Transfer {
    /// Whether the byte count after `event` still fits the counter, so that
    /// the event can be taken.
    pub fn can_take(&self, event: &Event) -> (fits: bool)
        ensures
            fits == self@.fits(event@),
    {
        match (self, event) {
            (Transfer::Reading { written }, Event::Chunk { len }) => *len <= u64::MAX - *written,
            _ => true,
        }
    }

    /// The action that is due in this state.
    pub fn action(&self) -> (action: Action)
        ensures
            action == self@.action(),
    {
        match self {
            Transfer::Opening { .. } => Action::Open,
            Transfer::Reading { .. } => Action::Read,
            Transfer::Writing { .. } => Action::Write,
            Transfer::Closing { .. } => Action::Close,
            Transfer::Done { .. } => Action::Finish,
            Transfer::Failed { .. } => Action::Fail,
        }
    }
}

/// Takes the outcome of the action that was due and moves the copy on.
///
/// The count of bytes grows by the length of each chunk as it is read, and
/// by nothing else. A failed read is a failure of transport; a failure to
/// open, write or close is a failure of storage.
pub fn stream_file(transfer: Transfer, event: Event) -> (next: Transfer)
    requires
        transfer@.fits(event@),
    ensures
        next@ == transfer@.next(event@),
{
    match transfer {
        Transfer::Opening { writer } => match event {
            Event::Opened => Transfer::Reading { written: 0 },
            Event::Failed { cause } => Transfer::Failed {
                error: DownloadError::with_cause(
                    ErrorKind::Storage,
                    "Failed to create storage writer",
                    cause.as_str(),
                ),
            },
            _ => Transfer::Opening { writer },
        },
        Transfer::Reading { written } => match event {
            Event::Chunk { len } => Transfer::Writing { written: written + len },
            Event::EndOfBody => Transfer::Closing { written },
            Event::Failed { cause } => Transfer::Failed {
                error: DownloadError::with_cause(
                    ErrorKind::Transport,
                    "Failed to read chunk from HTTP response",
                    cause.as_str(),
                ),
            },
            _ => Transfer::Reading { written },
        },
        Transfer::Writing { written } => match event {
            Event::Written => Transfer::Reading { written },
            Event::Failed { cause } => Transfer::Failed {
                error: DownloadError::with_cause(
                    ErrorKind::Storage,
                    "Failed to write chunk to storage",
                    cause.as_str(),
                ),
            },
            _ => Transfer::Writing { written },
        },
        Transfer::Closing { written } => match event {
            Event::Closed => Transfer::Done { written },
            Event::Failed { cause } => Transfer::Failed {
                error: DownloadError::with_cause(
                    ErrorKind::Storage,
                    "Failed to finalize storage upload",
                    cause.as_str(),
                ),
            },
            _ => Transfer::Closing { written },
        },
        Transfer::Done { written } => Transfer::Done { written },
        Transfer::Failed { error } => Transfer::Failed { error },
    }
}

/// The sum of the lengths of `chunks`.
pub open spec fn total(chunks: Seq<u64>) -> nat
    decreases chunks.len(),
{
    if chunks.len() == 0 {
        0
    } else {
        (total(chunks.drop_last()) + chunks.last()) as nat
    }
}

/// The events of a body that yields `chunks`, each of them written in turn.
pub open spec fn copied(chunks: Seq<u64>) -> Seq<EventText>
    decreases chunks.len(),
{
    if chunks.len() == 0 {
        Seq::<EventText>::empty()
    } else {
        copied(chunks.drop_last()).push(EventText::Chunk { len: chunks.last() }).push(
            EventText::Written,
        )
    }
}

/// Running over events in two parts is running over all of them.
pub proof fn lemma_run_append(state: TransferText, first: Seq<EventText>, second: Seq<EventText>)
    ensures
        state.run(first + second) == state.run(first).run(second),
    decreases second.len(),
{
    if second.len() == 0 {
        assert(first + second =~= first);
    } else {
        lemma_run_append(state, first, second.drop_last());
        assert((first + second).drop_last() =~= first + second.drop_last());
        assert((first + second).last() == second.last());
    }
}

/// After any number of chunks were read and written, the sink holds the sum
/// of their lengths and the next chunk is awaited.
pub proof fn lemma_copied(written: nat, chunks: Seq<u64>)
    ensures
        (TransferText::Reading { written }).run(copied(chunks)) == (TransferText::Reading {
            written: (written + total(chunks)) as nat,
        }),
    decreases chunks.len(),
{
    let start = TransferText::Reading { written };
    if chunks.len() > 0 {
        lemma_copied(written, chunks.drop_last());
        let events = copied(chunks);
        let read = events.drop_last();
        assert(read.drop_last() =~= copied(chunks.drop_last()));
        assert(start.run(read) == start.run(read.drop_last()).next(read.last()));
    }
}

/// The count of bytes is faithful: a copy that runs to its end reports the
/// exact sum of the lengths of the chunks it read, whatever their number, and
/// nothing that a header declared enters the count.
pub proof fn byte_count_fidelity(chunks: Seq<u64>)
    ensures
        (TransferText::Reading { written: 0 }).run(
            copied(chunks) + seq![EventText::EndOfBody, EventText::Closed],
        ) == (TransferText::Done { written: total(chunks) }),
{
    let start = TransferText::Reading { written: 0 };
    let end = seq![EventText::EndOfBody, EventText::Closed];
    lemma_copied(0, chunks);
    lemma_run_append(start, copied(chunks), end);
    let reading = start.run(copied(chunks));
    assert(end.drop_last() =~= seq![EventText::EndOfBody]);
    assert(end.drop_last().drop_last() =~= Seq::<EventText>::empty());
    assert(reading.run(end.drop_last()) == reading.run(end.drop_last().drop_last()).next(
        EventText::EndOfBody,
    ));
}

/// A copy that failed or finished stays as it is, whatever is reported.
pub proof fn transfer_end_is_absorbing(state: TransferText, event: EventText)
    requires
        state is Done || state is Failed,
    ensures
        state.next(event) == state,
{
}

/// Each failure of a copy has the kind of the action that failed: transport
/// for a read, storage for the sink.
pub proof fn transfer_failure_kinds(state: TransferText, event: EventText)
    requires
        !(state is Failed),
        state.next(event) is Failed,
    ensures
        event is Failed,
        state.next(event)->error.kind == (if state is Reading {
            ErrorKind::Transport
        } else {
            ErrorKind::Storage
        }),
{
}

} // verus!
