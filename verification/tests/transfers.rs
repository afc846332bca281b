use restate_downloader::common::{process_download, OutputOptions, ResponseMetadata};
use restate_downloader::error::ErrorKind;
use restate_downloader::transfer::{stream_file, Action, Event, Transfer};
use restate_downloader::uri::Uri;

fn opened() -> Transfer {
    Transfer::Reading { written: 0 }
}

fn failed(cause: &str) -> Event {
    Event::Failed { cause: cause.to_string() }
}

fn copy(chunks: &[u64]) -> Transfer {
    let mut transfer = opened();
    for len in chunks {
        assert_eq!(transfer.action(), Action::Read);
        transfer = stream_file(transfer, Event::Chunk { len: *len });
        assert_eq!(transfer.action(), Action::Write);
        transfer = stream_file(transfer, Event::Written);
    }
    assert_eq!(transfer.action(), Action::Read);
    transfer = stream_file(transfer, Event::EndOfBody);
    assert_eq!(transfer.action(), Action::Close);
    stream_file(transfer, Event::Closed)
}

fn written(transfer: &Transfer) -> u64 {
    match transfer {
        Transfer::Done { written } => *written,
        other => panic!("not done: {:?}", other),
    }
}

#[test]
fn empty_body_writes_no_bytes() {
    let done = copy(&[]);
    assert_eq!(done.action(), Action::Finish);
    assert_eq!(written(&done), 0);
}

#[test]
fn one_chunk_writes_its_length() {
    assert_eq!(written(&copy(&[1])), 1);
    assert_eq!(written(&copy(&[4096])), 4096);
}

#[test]
fn many_chunks_write_the_sum_of_their_lengths() {
    assert_eq!(written(&copy(&[3, 0, 5, 8192, 1])), 8201);
    assert_eq!(written(&copy(&[u64::MAX - 1, 1])), u64::MAX);
}

#[test]
fn chunk_that_overflows_the_count_cannot_be_taken() {
    let nearly_full = Transfer::Reading { written: u64::MAX - 1 };
    assert!(nearly_full.can_take(&Event::Chunk { len: 1 }));
    assert!(!nearly_full.can_take(&Event::Chunk { len: 2 }));
    assert!(nearly_full.can_take(&Event::EndOfBody));
    let writing = Transfer::Writing { written: u64::MAX };
    assert!(writing.can_take(&Event::Chunk { len: 5 }));
    assert!(opened().can_take(&Event::Chunk { len: u64::MAX }));
}

#[test]
fn transfer_starts_with_opening_the_sink() {
    let response = ResponseMetadata {
        status: 200,
        headers: vec![
            ("content-length".to_string(), "999".to_string()),
            ("content-type".to_string(), "image/png".to_string()),
        ],
        url: Uri::parse("https://example.com/a.png").unwrap(),
    };
    let output = OutputOptions { set_content_type: true, content_type: None };
    let transfer = process_download(&response, "dir/a.png".to_string(), Some(output));
    assert_eq!(transfer.action(), Action::Open);
    match &transfer {
        Transfer::Opening { writer } => {
            assert_eq!(writer.path, "dir/a.png");
            assert_eq!(writer.content_type, Some("image/png".to_string()));
        }
        other => panic!("not opening: {:?}", other),
    }
    let reading = stream_file(transfer, Event::Opened);
    assert_eq!(reading.action(), Action::Read);
    assert!(matches!(reading, Transfer::Reading { written: 0 }));
}

fn failure_of(transfer: Transfer) -> (ErrorKind, String, bool) {
    assert_eq!(transfer.action(), Action::Fail);
    match transfer {
        Transfer::Failed { error } => {
            let terminal = error.is_terminal();
            (error.kind, error.message, terminal)
        }
        other => panic!("not failed: {:?}", other),
    }
}

#[test]
fn failed_open_is_a_terminal_storage_failure() {
    let response = ResponseMetadata {
        status: 200,
        headers: Vec::new(),
        url: Uri::parse("https://example.com/a").unwrap(),
    };
    let transfer = process_download(&response, "a".to_string(), None);
    assert_eq!(
        failure_of(stream_file(transfer, failed("denied"))),
        (ErrorKind::Storage, "Failed to create storage writer: denied".to_string(), true)
    );
}

#[test]
fn failed_read_is_a_retryable_transport_failure() {
    let transfer = stream_file(opened(), Event::Chunk { len: 10 });
    let transfer = stream_file(transfer, Event::Written);
    assert_eq!(
        failure_of(stream_file(transfer, failed("reset by peer"))),
        (
            ErrorKind::Transport,
            "Failed to read chunk from HTTP response: reset by peer".to_string(),
            false
        )
    );
}

#[test]
fn failed_write_is_a_terminal_storage_failure() {
    let transfer = stream_file(opened(), Event::Chunk { len: 10 });
    assert_eq!(
        failure_of(stream_file(transfer, failed("quota"))),
        (ErrorKind::Storage, "Failed to write chunk to storage: quota".to_string(), true)
    );
}

#[test]
fn failed_close_is_a_terminal_storage_failure() {
    let transfer = stream_file(opened(), Event::EndOfBody);
    assert_eq!(
        failure_of(stream_file(transfer, failed("timeout"))),
        (ErrorKind::Storage, "Failed to finalize storage upload: timeout".to_string(), true)
    );
}

#[test]
fn event_that_answers_nothing_changes_nothing() {
    let reading = stream_file(opened(), Event::Written);
    assert!(matches!(reading, Transfer::Reading { written: 0 }));
    let reading = stream_file(reading, Event::Closed);
    assert!(matches!(reading, Transfer::Reading { written: 0 }));
    let reading = stream_file(reading, Event::Opened);
    assert!(matches!(reading, Transfer::Reading { written: 0 }));

    let writing = stream_file(reading, Event::Chunk { len: 7 });
    let writing = stream_file(writing, Event::Chunk { len: 9 });
    assert!(matches!(writing, Transfer::Writing { written: 7 }));
    let writing = stream_file(writing, Event::EndOfBody);
    assert!(matches!(writing, Transfer::Writing { written: 7 }));

    let closing = stream_file(stream_file(writing, Event::Written), Event::EndOfBody);
    let closing = stream_file(closing, Event::Chunk { len: 1 });
    assert!(matches!(closing, Transfer::Closing { written: 7 }));
}

#[test]
fn finished_and_failed_transfers_stay_as_they_are() {
    let done = copy(&[5]);
    let done = stream_file(done, Event::Chunk { len: 5 });
    let done = stream_file(done, failed("late"));
    assert_eq!(written(&done), 5);

    let failed_transfer = stream_file(opened(), failed("first"));
    let failed_transfer = stream_file(failed_transfer, Event::Closed);
    let failed_transfer = stream_file(failed_transfer, failed("second"));
    assert_eq!(
        failure_of(failed_transfer).1,
        "Failed to read chunk from HTTP response: first".to_string()
    );
}
