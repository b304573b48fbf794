use upder::fetch::{
    fetch_step, BarEnd, DownloadTarget, FetchAction, FetchError, FetchEvent, FetchState,
    CHUNK_SIZE, CONNECT_TIMEOUT_SECS, MAX_REDIRECTS,
};
use upder::progress::{
    compose_message, progress_template, render_progress, ProgressSnapshot, ProgressUpdate,
};

fn target() -> DownloadTarget {
    DownloadTarget {
        url: "https://example.org/asset".to_string(),
        dest: "/home/u/.local/bin/rust-analyzer".to_string(),
    }
}

fn snapshot(downloaded: u64, total: u64) -> ProgressSnapshot {
    ProgressSnapshot { downloaded, total, elapsed_secs: 65, bytes_per_sec: 2048 }
}

fn failed(message: &str) -> FetchEvent {
    FetchEvent::Failed { message: message.to_string() }
}

fn failure(bar: BarEnd, error: FetchError) -> (FetchState, FetchAction) {
    (FetchState::Done, FetchAction::Finish { bar, outcome: Err(error) })
}

/// Feeds a body to the transfer in chunks of the given lengths and returns
/// the lengths that were stored, with the action that ended the transfer.
fn transfer(lengths: &[usize]) -> (Vec<usize>, FetchAction) {
    let target = target();
    let (state, action) = fetch_step(&target, FetchState::Idle, FetchEvent::Begin);
    assert_eq!(
        action,
        FetchAction::Request {
            url: target.url.clone(),
            max_redirects: 10,
            connect_timeout_secs: CONNECT_TIMEOUT_SECS,
        }
    );
    let (state, action) = fetch_step(&target, state, FetchEvent::Response { status: 200 });
    assert_eq!(action, FetchAction::Create { path: target.dest.clone() });
    let (mut state, mut action) = fetch_step(&target, state, FetchEvent::Created);
    let mut stored = Vec::new();
    let mut downloaded = 0u64;
    let total: u64 = lengths.iter().map(|len| *len as u64).sum();
    for len in lengths.iter().copied().chain(std::iter::once(0)) {
        assert_eq!(state, FetchState::Reading);
        assert_eq!(action, FetchAction::Read { capacity: 65536 });
        downloaded += len as u64;
        let next =
            fetch_step(&target, state, FetchEvent::Read { len, snapshot: snapshot(downloaded, total) });
        state = next.0;
        action = next.1;
        if let FetchAction::Store { len: stored_len, progress } = &action {
            assert_eq!(state, FetchState::Storing);
            assert_eq!(progress.position, downloaded);
            assert_eq!(progress.length, total);
            stored.push(*stored_len);
            let next = fetch_step(&target, state, FetchEvent::Stored);
            state = next.0;
            action = next.1;
        }
    }
    assert_eq!(state, FetchState::Done);
    (stored, action)
}

#[test]
fn limits_of_a_transfer() {
    assert_eq!(CHUNK_SIZE, 16384 * 4);
    assert_eq!(MAX_REDIRECTS, 10);
}

#[test]
fn payload_of_1024_bytes_is_stored_whole() {
    let (stored, end) = transfer(&[1024]);
    assert_eq!(stored, vec![1024]);
    assert_eq!(end, FetchAction::Finish { bar: BarEnd::Finished, outcome: Ok(()) });
}

#[test]
fn payload_in_several_chunks_is_stored_in_order() {
    let lengths = [65536, 65536, 1, 4096];
    let (stored, end) = transfer(&lengths);
    assert_eq!(stored, lengths.to_vec());
    assert_eq!(stored.iter().sum::<usize>(), 65536 * 2 + 4097);
    assert_eq!(end, FetchAction::Finish { bar: BarEnd::Finished, outcome: Ok(()) });
}

#[test]
fn empty_payload_stores_nothing_and_succeeds() {
    let (stored, end) = transfer(&[]);
    assert!(stored.is_empty());
    assert_eq!(end, FetchAction::Finish { bar: BarEnd::Finished, outcome: Ok(()) });
}

#[test]
fn status_outside_success_fails_with_that_status() {
    for status in [199u16, 300, 301, 404, 500, 0, u16::MAX] {
        assert_eq!(
            fetch_step(&target(), FetchState::Requesting, FetchEvent::Response { status }),
            failure(BarEnd::Untouched, FetchError::HttpStatus(status))
        );
    }
}

#[test]
fn every_success_status_creates_the_destination() {
    for status in [200u16, 204, 299] {
        assert_eq!(
            fetch_step(&target(), FetchState::Requesting, FetchEvent::Response { status }),
            (FetchState::Creating, FetchAction::Create { path: target().dest })
        );
    }
}

#[test]
fn existing_destination_is_refused_before_anything_is_stored() {
    let target = target();
    let (state, _) = fetch_step(&target, FetchState::Idle, FetchEvent::Begin);
    let (state, action) = fetch_step(&target, state, FetchEvent::Response { status: 200 });
    assert_eq!(action, FetchAction::Create { path: target.dest.clone() });
    let next = fetch_step(&target, state, FetchEvent::AlreadyExists);
    assert_eq!(next, failure(BarEnd::Untouched, FetchError::AlreadyExists));
}

#[test]
fn failed_request_fails_the_transfer() {
    assert_eq!(
        fetch_step(&target(), FetchState::Requesting, failed("connection refused")),
        failure(BarEnd::Untouched, FetchError::Io("connection refused".to_string()))
    );
}

#[test]
fn failed_creation_fails_the_transfer() {
    assert_eq!(
        fetch_step(&target(), FetchState::Creating, failed("permission denied")),
        failure(BarEnd::Untouched, FetchError::Io("permission denied".to_string()))
    );
}

#[test]
fn failed_read_stops_the_bar_and_fails_the_transfer() {
    assert_eq!(
        fetch_step(&target(), FetchState::Reading, failed("reset by peer")),
        failure(BarEnd::FinishedAtCurrentPos, FetchError::Io("reset by peer".to_string()))
    );
}

#[test]
fn failed_write_fails_the_transfer() {
    assert_eq!(
        fetch_step(&target(), FetchState::Storing, failed("disk full")),
        failure(BarEnd::Untouched, FetchError::Io("disk full".to_string()))
    );
}

#[test]
fn chunk_longer_than_asked_for_fails_the_transfer() {
    let event = FetchEvent::Read { len: CHUNK_SIZE + 1, snapshot: snapshot(0, 0) };
    assert_eq!(
        fetch_step(&target(), FetchState::Reading, event),
        failure(BarEnd::Untouched, FetchError::Io("unexpected event".to_string()))
    );
}

#[test]
fn event_out_of_turn_fails_the_transfer() {
    let out_of_turn = failure(BarEnd::Untouched, FetchError::Io("unexpected event".to_string()));
    assert_eq!(fetch_step(&target(), FetchState::Idle, FetchEvent::Created), out_of_turn);
    assert_eq!(fetch_step(&target(), FetchState::Idle, failed("x")), out_of_turn);
    assert_eq!(fetch_step(&target(), FetchState::Requesting, FetchEvent::Begin), out_of_turn);
    assert_eq!(fetch_step(&target(), FetchState::Creating, FetchEvent::Stored), out_of_turn);
    assert_eq!(fetch_step(&target(), FetchState::Reading, FetchEvent::AlreadyExists), out_of_turn);
    assert_eq!(
        fetch_step(&target(), FetchState::Storing, FetchEvent::Response { status: 200 }),
        out_of_turn
    );
    assert_eq!(fetch_step(&target(), FetchState::Done, FetchEvent::Begin), out_of_turn);
    assert_eq!(fetch_step(&target(), FetchState::Done, failed("late")), out_of_turn);
}

#[test]
fn target_is_copied_field_by_field() {
    assert_eq!(target().duplicate(), target());
}

#[test]
fn message_is_put_together_from_its_parts() {
    assert_eq!(compose_message("00:00:07", "12B"), "time: 00:00:07 speed: 12B/sec");
    assert_eq!(compose_message("", ""), "time:  speed: /sec");
}

#[test]
fn progress_shows_position_length_and_formatted_message() {
    let update = render_progress(ProgressSnapshot {
        downloaded: 512,
        total: 1024,
        elapsed_secs: 65,
        bytes_per_sec: 2048,
    });
    assert_eq!(
        update,
        ProgressUpdate {
            position: 512,
            length: 1024,
            message: "time: 00:01:05 speed: 2.00KB/sec".to_string(),
        }
    );
}

#[test]
fn progress_of_a_slow_long_transfer() {
    let update = render_progress(ProgressSnapshot {
        downloaded: 1,
        total: 0,
        elapsed_secs: 90061,
        bytes_per_sec: 0,
    });
    assert_eq!(update.message, "time: 1d 01:01:01 speed: 0B/sec");
    assert_eq!(update.position, 1);
    assert_eq!(update.length, 0);
}

#[test]
fn template_of_the_indicator() {
    assert_eq!(
        progress_template(),
        "{bar:60.cyan/blue} {bytes:>7}/{total_bytes:7} ({eta}) {msg}"
    );
}
