//! What the progress indicator of a download shows.
use vstd::prelude::*;
use vstd::string::*;

verus! {

/// How far a download has come, as the transport reports it after a chunk.
#[derive(Clone, Copy, Debug, PartialEq, Eq, Structural)]
pub struct ProgressSnapshot {
    /// Bytes transferred so far.
    pub downloaded: u64,
    /// Bytes the server announced; zero until that is known.
    pub total: u64,
    /// Whole seconds since the request was sent.
    pub elapsed_secs: u64,
    /// Bytes per second at this moment.
    pub bytes_per_sec: u64,
}

/// What to draw on the progress indicator.
#[derive(Clone, Debug, PartialEq, Eq)]
pub struct ProgressUpdate {
    pub position: u64,
    pub length: u64,
    pub message: String,
}

/// A `ProgressUpdate` with its message as a sequence of characters.
pub struct ProgressUpdateView {
    pub position: u64,
    pub length: u64,
    pub message: Seq<char>,
}

impl View for ProgressUpdate {
    type V = ProgressUpdateView;

    open spec fn view(&self) -> ProgressUpdateView {
        ProgressUpdateView { position: self.position, length: self.length, message: self.message@ }
    }
}

/// The text `indicatif::FormattedDuration` displays for a number of seconds.
pub uninterp spec fn formatted_duration_text(secs: u64) -> Seq<char>;

/// The text `indicatif::HumanBytes` displays for a number of bytes.
pub uninterp spec fn human_bytes_text(bytes: u64) -> Seq<char>;

/// Formats a duration as a clock reading.
///
/// Displays `indicatif::FormattedDuration` for a `Duration` of `secs` whole
/// seconds.  The text is not spelled out here: the contract only names it as
/// a function of `secs`.
#[verifier::external_body]
fn formatted_duration(secs: u64) -> (text: String)
    ensures
        text@ == formatted_duration_text(secs),
{
    format!("{}", indicatif::FormattedDuration(std::time::Duration::from_secs(secs)))
}

/// Formats a number of bytes for a human reader.
///
/// Displays `indicatif::HumanBytes` for `bytes`.  The text is not spelled out
/// here: the contract only names it as a function of `bytes`.
#[verifier::external_body]
fn human_bytes(bytes: u64) -> (text: String)
    ensures
        text@ == human_bytes_text(bytes),
{
    format!("{}", indicatif::HumanBytes(bytes))
}

/// The message beside the bar, made of an elapsed time and a throughput that
/// are already formatted.
pub open spec fn message_text(elapsed: Seq<char>, speed: Seq<char>) -> Seq<char> {
    "time: "@ + elapsed + " speed: "@ + speed + "/sec"@
}

/// Puts the message beside the bar together from its two formatted parts.
pub fn compose_message(elapsed: &str, speed: &str) -> (message: String)
    ensures
        message@ == message_text(elapsed@, speed@),
{
    let mut message = String::from_str("time: ");
    message.append(elapsed);
    message.append(" speed: ");
    message.append(speed);
    message.append("/sec");
    message
}

/// What the indicator shows for a snapshot.
pub open spec fn progress_of(snapshot: ProgressSnapshot) -> ProgressUpdateView {
    ProgressUpdateView {
        position: snapshot.downloaded,
        length: snapshot.total,
        message: message_text(
            formatted_duration_text(snapshot.elapsed_secs),
            human_bytes_text(snapshot.bytes_per_sec),
        ),
    }
}

/// Renders a snapshot for the progress indicator: the bar stands at the bytes
/// transferred out of the bytes announced, the message tells the elapsed time
/// and the throughput.
pub fn render_progress(snapshot: ProgressSnapshot) -> (update: ProgressUpdate)
    ensures
        update@ == progress_of(snapshot),
{
    let elapsed = formatted_duration(snapshot.elapsed_secs);
    let speed = human_bytes(snapshot.bytes_per_sec);
    ProgressUpdate {
        position: snapshot.downloaded,
        length: snapshot.total,
        message: compose_message(elapsed.as_str(), speed.as_str()),
    }
}

/// The layout of the progress indicator, in the template language of the
/// indicator.
pub fn progress_template() -> (template: &'static str)
    ensures
        template@ == "{bar:60.cyan/blue} {bytes:>7}/{total_bytes:7} ({eta}) {msg}"@,
{
    "{bar:60.cyan/blue} {bytes:>7}/{total_bytes:7} ({eta}) {msg}"
}

} // verus!
