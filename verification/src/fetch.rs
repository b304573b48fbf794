//! Downloading a release asset: the decisions of the transfer, one event at a
//! time.
//!
//! The transfer itself (the request, the file, the progress indicator) is
//! carried out by the caller.  It starts with `FetchEvent::Begin`, performs the
//! action that `fetch_step` answers with, and reports what happened as the
//! next event, until the action is `FetchAction::Finish`.
use crate::progress::{progress_of, render_progress, ProgressSnapshot, ProgressUpdate, ProgressUpdateView};
use vstd::prelude::*;
use vstd::string::*;

verus! {

/// The largest number of bytes asked for in one read.
pub const CHUNK_SIZE: usize = 65536;

/// The number of redirects that are followed before the request is given up.
pub const MAX_REDIRECTS: u32 = 10;

/// The number of seconds a connection may take to come about.
pub const CONNECT_TIMEOUT_SECS: u64 = 300;

/// Where a download comes from and where it goes.
#[derive(Clone, Debug, PartialEq, Eq)]
pub struct DownloadTarget {
    pub url: String,
    pub dest: String,
}

/// A `DownloadTarget` with its texts as sequences of characters.
pub struct DownloadTargetView {
    pub url: Seq<char>,
    pub dest: Seq<char>,
}

impl View for DownloadTarget {
    type V = DownloadTargetView;

    open spec fn view(&self) -> DownloadTargetView {
        DownloadTargetView { url: self.url@, dest: self.dest@ }
    }
}

impl DownloadTarget {
    /// A copy of this target.
    pub fn duplicate(&self) -> (copy: DownloadTarget)
        ensures
            copy@ == self@,
    {
        DownloadTarget { url: self.url.clone(), dest: self.dest.clone() }
    }
}

/// Why a download failed.
#[derive(Clone, Debug, PartialEq, Eq)]
pub enum FetchError {
    /// The server answered with this status, which is no success.
    HttpStatus(u16),
    /// The destination is already there; it was left as it is.
    AlreadyExists,
    /// The request, a read or a write failed; the text is the underlying
    /// message.
    Io(String),
}

/// A `FetchError` with its text as a sequence of characters.
pub enum FetchErrorView {
    HttpStatus(u16),
    AlreadyExists,
    Io(Seq<char>),
}

impl View for FetchError {
    type V = FetchErrorView;

    open spec fn view(&self) -> FetchErrorView {
        match *self {
            FetchError::HttpStatus(code) => FetchErrorView::HttpStatus(code),
            FetchError::AlreadyExists => FetchErrorView::AlreadyExists,
            FetchError::Io(message) => FetchErrorView::Io(message@),
        }
    }
}

/// How far a transfer has come.
#[derive(Clone, Copy, Debug, PartialEq, Eq, Structural)]
pub enum FetchState {
    /// Nothing has been done yet.
    Idle,
    /// The request is out; the status is awaited.
    Requesting,
    /// The destination is being created.
    Creating,
    /// A chunk of the body is being read.
    Reading,
    /// A chunk is being appended to the destination.
    Storing,
    /// The transfer is over.
    Done,
}

/// What happened to the action asked for last.
#[derive(Clone, Debug, PartialEq, Eq)]
pub enum FetchEvent {
    /// The transfer is to start.
    Begin,
    /// The server answered with this status.
    Response { status: u16 },
    /// The destination was created and is empty.
    Created,
    /// The destination is already there.
    AlreadyExists,
    /// A read returned `len` bytes; zero bytes are the end of the body.
    Read { len: usize, snapshot: ProgressSnapshot },
    /// The chunk was appended and the indicator redrawn.
    Stored,
    /// The action failed with this message.
    Failed { message: String },
}

/// A `FetchEvent` with its text as a sequence of characters.
pub enum FetchEventView {
    Begin,
    Response { status: u16 },
    Created,
    AlreadyExists,
    Read { len: usize, snapshot: ProgressSnapshot },
    Stored,
    Failed { message: Seq<char> },
}

impl View for FetchEvent {
    type V = FetchEventView;

    open spec fn view(&self) -> FetchEventView {
        match *self {
            FetchEvent::Begin => FetchEventView::Begin,
            FetchEvent::Response { status } => FetchEventView::Response { status },
            FetchEvent::Created => FetchEventView::Created,
            FetchEvent::AlreadyExists => FetchEventView::AlreadyExists,
            FetchEvent::Read { len, snapshot } => FetchEventView::Read { len, snapshot },
            FetchEvent::Stored => FetchEventView::Stored,
            FetchEvent::Failed { message } => FetchEventView::Failed { message: message@ },
        }
    }
}

/// How the progress indicator is left when the transfer ends.
#[derive(Clone, Copy, Debug, PartialEq, Eq, Structural)]
pub enum BarEnd {
    /// As it stands, without a final drawing.
    Untouched,
    /// Completed.
    Finished,
    /// Stopped where it stands.
    FinishedAtCurrentPos,
}

/// What the caller is to do next.
#[derive(Debug, PartialEq, Eq)]
pub enum FetchAction {
    /// Send a GET request for `url`.
    Request { url: String, max_redirects: u32, connect_timeout_secs: u64 },
    /// Create the file `path`, and fail if it is already there.
    Create { path: String },
    /// Read up to `capacity` bytes of the body, then report `Read`.
    Read { capacity: usize },
    /// Append the `len` bytes just read to the destination and draw
    /// `progress`, then report `Stored`.
    Store { len: usize, progress: ProgressUpdate },
    /// Leave the indicator as `bar` says; the transfer ended with `outcome`.
    Finish { bar: BarEnd, outcome: Result<(), FetchError> },
}

/// A `FetchAction` with its texts as sequences of characters.
pub enum FetchActionView {
    Request { url: Seq<char>, max_redirects: u32, connect_timeout_secs: u64 },
    Create { path: Seq<char> },
    Read { capacity: usize },
    Store { len: usize, progress: ProgressUpdateView },
    Finish { bar: BarEnd, outcome: Result<(), FetchErrorView> },
}

impl View for FetchAction {
    type V = FetchActionView;

    open spec fn view(&self) -> FetchActionView {
        match *self {
            FetchAction::Request { url, max_redirects, connect_timeout_secs } => {
                FetchActionView::Request { url: url@, max_redirects, connect_timeout_secs }
            },
            FetchAction::Create { path } => FetchActionView::Create { path: path@ },
            FetchAction::Read { capacity } => FetchActionView::Read { capacity },
            FetchAction::Store { len, progress } => {
                FetchActionView::Store { len, progress: progress@ }
            },
            FetchAction::Finish { bar, outcome } => FetchActionView::Finish {
                bar,
                outcome: match outcome {
                    Ok(_) => Ok(()),
                    Err(error) => Err(error@),
                },
            },
        }
    }
}

/// Whether a status tells of success.
pub open spec fn is_success(status: u16) -> bool {
    200 <= status < 300
}

/// The message of the failure that an event out of turn ends the transfer
/// with.
pub open spec fn out_of_turn() -> Seq<char> {
    "unexpected event"@
}

/// The end of a transfer that failed.
pub open spec fn failure(bar: BarEnd, error: FetchErrorView) -> (FetchState, FetchActionView) {
    (FetchState::Done, FetchActionView::Finish { bar, outcome: Err(error) })
}

/// The rules of a transfer: the state that follows `state` on `event`, and
/// the action to perform.
///
/// The request comes first and a status outside the success range ends the
/// transfer.  Only then is the destination created, and a destination that is
/// already there ends the transfer before anything is stored.  Each chunk
/// that is read is stored and shown; a read of no bytes completes the
/// transfer.  A failed read stops the indicator where it stands and fails
/// the transfer, as every other failure does.  An event that does not answer
/// the action asked for last fails the transfer too.
pub open spec fn fetch_transition(
    target: DownloadTargetView,
    state: FetchState,
    event: FetchEventView,
) -> (FetchState, FetchActionView) {
    match (state, event) {
        (FetchState::Idle, FetchEventView::Begin) => (
            FetchState::Requesting,
            FetchActionView::Request {
                url: target.url,
                max_redirects: MAX_REDIRECTS,
                connect_timeout_secs: CONNECT_TIMEOUT_SECS,
            },
        ),
        (FetchState::Requesting, FetchEventView::Response { status }) => if is_success(status) {
            (FetchState::Creating, FetchActionView::Create { path: target.dest })
        } else {
            failure(BarEnd::Untouched, FetchErrorView::HttpStatus(status))
        },
        (FetchState::Requesting, FetchEventView::Failed { message }) => failure(
            BarEnd::Untouched,
            FetchErrorView::Io(message),
        ),
        (FetchState::Creating, FetchEventView::Created) => (
            FetchState::Reading,
            FetchActionView::Read { capacity: CHUNK_SIZE },
        ),
        (FetchState::Creating, FetchEventView::AlreadyExists) => failure(
            BarEnd::Untouched,
            FetchErrorView::AlreadyExists,
        ),
        (FetchState::Creating, FetchEventView::Failed { message }) => failure(
            BarEnd::Untouched,
            FetchErrorView::Io(message),
        ),
        (FetchState::Reading, FetchEventView::Read { len, snapshot }) => if len == 0 {
            (FetchState::Done, FetchActionView::Finish { bar: BarEnd::Finished, outcome: Ok(()) })
        } else if len <= CHUNK_SIZE {
            (FetchState::Storing, FetchActionView::Store { len, progress: progress_of(snapshot) })
        } else {
            failure(BarEnd::Untouched, FetchErrorView::Io(out_of_turn()))
        },
        (FetchState::Reading, FetchEventView::Failed { message }) => failure(
            BarEnd::FinishedAtCurrentPos,
            FetchErrorView::Io(message),
        ),
        (FetchState::Storing, FetchEventView::Stored) => (
            FetchState::Reading,
            FetchActionView::Read { capacity: CHUNK_SIZE },
        ),
        (FetchState::Storing, FetchEventView::Failed { message }) => failure(
            BarEnd::Untouched,
            FetchErrorView::Io(message),
        ),
        _ => failure(BarEnd::Untouched, FetchErrorView::Io(out_of_turn())),
    }
}

/// The end of a transfer that failed with `error`.
fn fail(bar: BarEnd, error: FetchError) -> (next: (FetchState, FetchAction))
    ensures
        (next.0, next.1@) == failure(bar, error@),
{
    (FetchState::Done, FetchAction::Finish { bar, outcome: Err(error) })
}

/// The end of a transfer on an event that does not answer the last action.
fn fail_out_of_turn() -> (next: (FetchState, FetchAction))
    ensures
        (next.0, next.1@) == failure(BarEnd::Untouched, FetchErrorView::Io(out_of_turn())),
{
    fail(BarEnd::Untouched, FetchError::Io(String::from_str("unexpected event")))
}

/// Takes one step of a transfer: from the state it is in and the event that
/// was reported to the state that follows and the action to perform, as
/// `fetch_transition` lays down.
pub fn fetch_step(target: &DownloadTarget, state: FetchState, event: FetchEvent) -> (next: (
    FetchState,
    FetchAction,
))
    ensures
        (next.0, next.1@) == fetch_transition(target@, state, event@),
{
    match state {
        FetchState::Idle => match event {
            FetchEvent::Begin => (
                FetchState::Requesting,
                FetchAction::Request {
                    url: target.url.clone(),
                    max_redirects: MAX_REDIRECTS,
                    connect_timeout_secs: CONNECT_TIMEOUT_SECS,
                },
            ),
            _ => fail_out_of_turn(),
        },
        FetchState::Requesting => match event {
            FetchEvent::Response { status } => if 200 <= status && status < 300 {
                (FetchState::Creating, FetchAction::Create { path: target.dest.clone() })
            } else {
                fail(BarEnd::Untouched, FetchError::HttpStatus(status))
            },
            FetchEvent::Failed { message } => fail(BarEnd::Untouched, FetchError::Io(message)),
            _ => fail_out_of_turn(),
        },
        FetchState::Creating => match event {
            FetchEvent::Created => (FetchState::Reading, FetchAction::Read { capacity: CHUNK_SIZE }),
            FetchEvent::AlreadyExists => fail(BarEnd::Untouched, FetchError::AlreadyExists),
            FetchEvent::Failed { message } => fail(BarEnd::Untouched, FetchError::Io(message)),
            _ => fail_out_of_turn(),
        },
        FetchState::Reading => match event {
            FetchEvent::Read { len, snapshot } => if len == 0 {
                (FetchState::Done, FetchAction::Finish { bar: BarEnd::Finished, outcome: Ok(()) })
            } else if len <= CHUNK_SIZE {
                (FetchState::Storing, FetchAction::Store { len, progress: render_progress(snapshot) })
            } else {
                fail_out_of_turn()
            },
            FetchEvent::Failed { message } => fail(
                BarEnd::FinishedAtCurrentPos,
                FetchError::Io(message),
            ),
            _ => fail_out_of_turn(),
        },
        FetchState::Storing => match event {
            FetchEvent::Stored => (FetchState::Reading, FetchAction::Read { capacity: CHUNK_SIZE }),
            FetchEvent::Failed { message } => fail(BarEnd::Untouched, FetchError::Io(message)),
            _ => fail_out_of_turn(),
        },
        FetchState::Done => fail_out_of_turn(),
    }
}

/// A whole transfer: the state that is reached from `state` when `events` are
/// reported one after the other, and the actions that were asked for on the
/// way.
pub open spec fn fetch_run(
    target: DownloadTargetView,
    state: FetchState,
    events: Seq<FetchEventView>,
) -> (FetchState, Seq<FetchActionView>)
    decreases events.len(),
{
    if events.len() == 0 {
        (state, Seq::empty())
    } else {
        let (next, action) = fetch_transition(target, state, events[0]);
        let (last, actions) = fetch_run(target, next, events.drop_first());
        (last, seq![action] + actions)
    }
}

/// A chunk of a body: how many bytes the read returned, and the snapshot
/// that came with it.
pub type Chunk = (usize, ProgressSnapshot);

/// Whether every chunk holds at least one byte and no more than was asked
/// for.
pub open spec fn chunks_fit(chunks: Seq<Chunk>) -> bool {
    forall|i: int| 0 <= i < chunks.len() ==> 0 < (#[trigger] chunks[i]).0 <= CHUNK_SIZE
}

/// What is reported while the chunks of a body are read and stored.
pub open spec fn body_events(chunks: Seq<Chunk>) -> Seq<FetchEventView>
    decreases chunks.len(),
{
    if chunks.len() == 0 {
        Seq::empty()
    } else {
        seq![
            FetchEventView::Read { len: chunks[0].0, snapshot: chunks[0].1 },
            FetchEventView::Stored,
        ] + body_events(chunks.drop_first())
    }
}

/// What is asked for while the chunks of a body are read and stored: each
/// chunk is stored as long as it was read, and then the next is read.
pub open spec fn body_actions(chunks: Seq<Chunk>) -> Seq<FetchActionView>
    decreases chunks.len(),
{
    if chunks.len() == 0 {
        Seq::empty()
    } else {
        seq![
            FetchActionView::Store { len: chunks[0].0, progress: progress_of(chunks[0].1) },
            FetchActionView::Read { capacity: CHUNK_SIZE },
        ] + body_actions(chunks.drop_first())
    }
}

/// The number of bytes in a sequence of chunks.
pub open spec fn total_len(chunks: Seq<Chunk>) -> nat
    decreases chunks.len(),
{
    if chunks.len() == 0 {
        0
    } else {
        chunks[0].0 as nat + total_len(chunks.drop_first())
    }
}

/// The number of bytes that a sequence of actions stores.
pub open spec fn bytes_stored(actions: Seq<FetchActionView>) -> nat
    decreases actions.len(),
{
    if actions.len() == 0 {
        0
    } else {
        let rest = bytes_stored(actions.drop_first());
        match actions[0] {
            FetchActionView::Store { len, .. } => len as nat + rest,
            _ => rest,
        }
    }
}

/// Unfolds a run by its first event.
proof fn lemma_run_unfold(
    target: DownloadTargetView,
    state: FetchState,
    events: Seq<FetchEventView>,
)
    requires
        events.len() > 0,
    ensures
        fetch_run(target, state, events) == (
            fetch_run(
                target,
                fetch_transition(target, state, events[0]).0,
                events.drop_first(),
            ).0,
            seq![fetch_transition(target, state, events[0]).1] + fetch_run(
                target,
                fetch_transition(target, state, events[0]).0,
                events.drop_first(),
            ).1,
        ),
{
}

/// While a body is read, the transfer stores each chunk and reads on; what
/// follows the body is handled as if it came first.
proof fn lemma_body_run(target: DownloadTargetView, chunks: Seq<Chunk>, then: Seq<FetchEventView>)
    requires
        chunks_fit(chunks),
    ensures
        fetch_run(target, FetchState::Reading, body_events(chunks) + then) == (
            fetch_run(target, FetchState::Reading, then).0,
            body_actions(chunks) + fetch_run(target, FetchState::Reading, then).1,
        ),
    decreases chunks.len(),
{
    if chunks.len() == 0 {
        assert(body_events(chunks) + then =~= then);
        assert(body_actions(chunks) + fetch_run(target, FetchState::Reading, then).1
            =~= fetch_run(target, FetchState::Reading, then).1);
    } else {
        // The first chunk is read and stored; the rest follows by induction.
        let rest = chunks.drop_first();
        let events = body_events(chunks) + then;
        let after_read = events.drop_first();
        let after_store = after_read.drop_first();
        assert(chunks_fit(rest)) by {
            assert(forall|i: int| 0 <= i < rest.len() ==> rest[i] == chunks[i + 1]);
        }
        assert(after_store =~= body_events(rest) + then);
        lemma_run_unfold(target, FetchState::Reading, events);
        lemma_run_unfold(target, FetchState::Storing, after_read);
        lemma_body_run(target, rest, then);
        let tail = fetch_run(target, FetchState::Reading, then).1;
        assert(seq![
            FetchActionView::Store { len: chunks[0].0, progress: progress_of(chunks[0].1) },
        ] + (seq![FetchActionView::Read { capacity: CHUNK_SIZE }] + (body_actions(rest) + tail))
            =~= body_actions(chunks) + tail);
    }
}

/// Storing a body stores as many bytes as its chunks hold.
pub proof fn lemma_body_stores_every_byte(chunks: Seq<Chunk>)
    ensures
        bytes_stored(body_actions(chunks)) == total_len(chunks),
    decreases chunks.len(),
{
    if chunks.len() > 0 {
        let actions = body_actions(chunks);
        let rest = chunks.drop_first();
        lemma_body_stores_every_byte(rest);
        assert(actions.drop_first().drop_first() =~= body_actions(rest));
        assert(bytes_stored(actions.drop_first()) == bytes_stored(body_actions(rest)));
    }
}

/// What is reported in a transfer that meets no obstacle: a status of
/// success, a fresh destination, the chunks of the body and the end of the
/// stream.
pub open spec fn clean_events(status: u16, chunks: Seq<Chunk>, last: ProgressSnapshot) -> Seq<
    FetchEventView,
> {
    seq![FetchEventView::Begin, FetchEventView::Response { status }, FetchEventView::Created]
        + body_events(chunks) + seq![FetchEventView::Read { len: 0, snapshot: last }]
}

/// What a transfer that meets no obstacle asks for.
pub open spec fn clean_actions(target: DownloadTargetView, chunks: Seq<Chunk>) -> Seq<
    FetchActionView,
> {
    seq![
        FetchActionView::Request {
            url: target.url,
            max_redirects: MAX_REDIRECTS,
            connect_timeout_secs: CONNECT_TIMEOUT_SECS,
        },
        FetchActionView::Create { path: target.dest },
        FetchActionView::Read { capacity: CHUNK_SIZE },
    ] + body_actions(chunks) + seq![
        FetchActionView::Finish { bar: BarEnd::Finished, outcome: Ok(()) },
    ]
}

/// A transfer that meets no obstacle requests the source, creates the
/// destination, stores every chunk of the body in the order and at the length
/// in which it was read, and ends in success with the indicator completed.
pub proof fn lemma_clean_transfer_stores_the_body(
    target: DownloadTargetView,
    status: u16,
    chunks: Seq<Chunk>,
    last: ProgressSnapshot,
)
    requires
        is_success(status),
        chunks_fit(chunks),
    ensures
        fetch_run(target, FetchState::Idle, clean_events(status, chunks, last)) == (
            FetchState::Done,
            clean_actions(target, chunks),
        ),
{
    let end = seq![FetchEventView::Read { len: 0, snapshot: last }];
    let events = clean_events(status, chunks, last);
    let after_begin = events.drop_first();
    let after_response = after_begin.drop_first();
    let after_created = after_response.drop_first();
    assert(after_created =~= body_events(chunks) + end);
    lemma_run_unfold(target, FetchState::Idle, events);
    lemma_run_unfold(target, FetchState::Requesting, after_begin);
    lemma_run_unfold(target, FetchState::Creating, after_response);
    lemma_body_run(target, chunks, end);
    lemma_run_unfold(target, FetchState::Reading, end);
    assert(fetch_run(target, FetchState::Idle, events).1 =~= clean_actions(target, chunks));
}

/// A destination that is already there ends the transfer with
/// `AlreadyExists` as soon as its creation is refused: nothing is read and
/// nothing is stored.
pub proof fn lemma_existing_destination_is_kept(target: DownloadTargetView, status: u16)
    requires
        is_success(status),
    ensures
        fetch_run(
            target,
            FetchState::Idle,
            seq![
                FetchEventView::Begin,
                FetchEventView::Response { status },
                FetchEventView::AlreadyExists,
            ],
        ) == (
            FetchState::Done,
            seq![
                FetchActionView::Request {
                    url: target.url,
                    max_redirects: MAX_REDIRECTS,
                    connect_timeout_secs: CONNECT_TIMEOUT_SECS,
                },
                FetchActionView::Create { path: target.dest },
                FetchActionView::Finish {
                    bar: BarEnd::Untouched,
                    outcome: Err(FetchErrorView::AlreadyExists),
                },
            ],
        ),
{
    let events = seq![
        FetchEventView::Begin,
        FetchEventView::Response { status },
        FetchEventView::AlreadyExists,
    ];
    let after_begin = events.drop_first();
    let after_response = after_begin.drop_first();
    lemma_run_unfold(target, FetchState::Idle, events);
    lemma_run_unfold(target, FetchState::Requesting, after_begin);
    lemma_run_unfold(target, FetchState::Creating, after_response);
}

/// What two sequences of actions store one after the other is what each of
/// them stores, added up.
pub proof fn lemma_bytes_stored_adds_up(first: Seq<FetchActionView>, second: Seq<FetchActionView>)
    ensures
        bytes_stored(first + second) == bytes_stored(first) + bytes_stored(second),
    decreases first.len(),
{
    if first.len() == 0 {
        assert(first + second =~= second);
    } else {
        assert((first + second).drop_first() =~= first.drop_first() + second);
        lemma_bytes_stored_adds_up(first.drop_first(), second);
    }
}

/// A transfer that meets no obstacle stores exactly as many bytes as the
/// body holds.
pub proof fn lemma_clean_transfer_stores_every_byte(
    target: DownloadTargetView,
    status: u16,
    chunks: Seq<Chunk>,
    last: ProgressSnapshot,
)
    requires
        is_success(status),
        chunks_fit(chunks),
    ensures
        bytes_stored(fetch_run(target, FetchState::Idle, clean_events(status, chunks, last)).1)
            == total_len(chunks),
{
    let opening = seq![
        FetchActionView::Request {
            url: target.url,
            max_redirects: MAX_REDIRECTS,
            connect_timeout_secs: CONNECT_TIMEOUT_SECS,
        },
        FetchActionView::Create { path: target.dest },
        FetchActionView::Read { capacity: CHUNK_SIZE },
    ];
    let closing = seq![FetchActionView::Finish { bar: BarEnd::Finished, outcome: Ok(()) }];
    lemma_clean_transfer_stores_the_body(target, status, chunks, last);
    lemma_body_stores_every_byte(chunks);
    lemma_bytes_stored_adds_up(opening + body_actions(chunks), closing);
    lemma_bytes_stored_adds_up(opening, body_actions(chunks));
    assert(bytes_stored(opening) == 0) by {
        reveal_with_fuel(bytes_stored, 4);
    }
    assert(bytes_stored(closing) == 0) by {
        reveal_with_fuel(bytes_stored, 2);
    }
}

} // verus!
