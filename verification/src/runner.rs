//! Running an external command and capturing what it prints.
//!
//! The caller starts the command and waits for it; this module says what the
//! outcome means.
use vstd::prelude::*;
use vstd::string::*;
use vstd::utf8::{decode_utf8, valid_utf8};

verus! {

/// An external command: a program and its arguments.
#[derive(Clone, Debug, PartialEq, Eq)]
pub struct Command {
    pub program: String,
    pub args: Vec<String>,
}

/// A `Command` with its texts as sequences of characters.
pub struct CommandView {
    pub program: Seq<char>,
    pub args: Seq<Seq<char>>,
}

impl View for Command {
    type V = CommandView;

    open spec fn view(&self) -> CommandView {
        CommandView { program: self.program@, args: self.args.deep_view() }
    }
}

impl Command {
    /// A copy of this command.
    pub fn duplicate(&self) -> (copy: Command)
        ensures
            copy@ == self@,
    {
        let mut args: Vec<String> = Vec::new();
        let mut i: usize = 0;
        while i < self.args.len()
            invariant
                i <= self.args.len(),
                args.deep_view() == self.args.deep_view().take(i as int),
            decreases self.args.len() - i,
        {
            let ghost before = args.deep_view();
            args.push(self.args[i].clone());
            assert(args.deep_view() =~= before.push(self.args[i as int]@));
            i = i + 1;
        }
        assert(args.deep_view() =~= self.args.deep_view());
        Command { program: self.program.clone(), args }
    }
}

/// Why a command gave no output.
#[derive(Clone, Debug, PartialEq, Eq)]
pub enum RunError {
    /// The command could not be started; the text is the underlying message.
    SpawnFailed(String),
    /// The command was started, but waiting for it failed.
    WaitFailed(String),
}

/// A `RunError` with its text as a sequence of characters.
pub enum RunErrorView {
    SpawnFailed(Seq<char>),
    WaitFailed(Seq<char>),
}

impl View for RunError {
    type V = RunErrorView;

    open spec fn view(&self) -> RunErrorView {
        match *self {
            RunError::SpawnFailed(message) => RunErrorView::SpawnFailed(message@),
            RunError::WaitFailed(message) => RunErrorView::WaitFailed(message@),
        }
    }
}

/// What became of a command.
#[derive(Clone, Debug, PartialEq, Eq)]
pub enum RunOutcome {
    /// It could not be started.
    SpawnFailed { message: String },
    /// It was started, but waiting for it failed.
    WaitFailed { message: String },
    /// It ran to its end and wrote `stdout` to its standard output.  How it
    /// exited is of no account.
    Exited { stdout: Vec<u8> },
}

/// The text that `String::from_utf8_lossy` makes of a sequence of bytes.
pub uninterp spec fn lossy_text(bytes: Seq<u8>) -> Seq<char>;

/// Decodes bytes as text, replacing what is not valid UTF-8.
///
/// Calls `String::from_utf8_lossy`.  The contract names the text as a
/// function of the bytes and states the one thing the documentation spells
/// out: valid UTF-8 is decoded as it stands.
#[verifier::external_body]
fn decode_lossy(bytes: &Vec<u8>) -> (text: String)
    ensures
        text@ == lossy_text(bytes@),
        valid_utf8(bytes@) ==> text@ == decode_utf8(bytes@),
{
    String::from_utf8_lossy(bytes).into_owned()
}

/// What a command's outcome is worth once its output has been decoded to
/// `text`: the text if it ran, the failure if it could not be started or
/// waited for.
pub open spec fn captured(outcome: RunOutcome, text: Seq<char>) -> Result<Seq<char>, RunErrorView> {
    match outcome {
        RunOutcome::SpawnFailed { message } => Err(RunErrorView::SpawnFailed(message@)),
        RunOutcome::WaitFailed { message } => Err(RunErrorView::WaitFailed(message@)),
        RunOutcome::Exited { stdout } => Ok(text),
    }
}

/// The view of a captured result.
pub open spec fn capture_view(result: Result<String, RunError>) -> Result<
    Seq<char>,
    RunErrorView,
> {
    match result {
        Ok(text) => Ok(text@),
        Err(error) => Err(error@),
    }
}

/// Settles a command's outcome, given its output as text.
pub fn capture_text(outcome: RunOutcome, text: String) -> (result: Result<String, RunError>)
    ensures
        capture_view(result) == captured(outcome, text@),
{
    match outcome {
        RunOutcome::SpawnFailed { message } => Err(RunError::SpawnFailed(message)),
        RunOutcome::WaitFailed { message } => Err(RunError::WaitFailed(message)),
        RunOutcome::Exited { stdout } => Ok(text),
    }
}

/// Settles a command's outcome: a command that ran gives what it wrote to its
/// standard output, decoded as text with invalid bytes replaced and never
/// refused; one that could not be started or waited for gives that failure.
pub fn exec_cmd(outcome: RunOutcome) -> (result: Result<String, RunError>)
    ensures
        capture_view(result) == captured(
            outcome,
            match outcome {
                RunOutcome::Exited { stdout } => lossy_text(stdout@),
                _ => Seq::empty(),
            },
        ),
        outcome matches RunOutcome::Exited { stdout } ==> valid_utf8(stdout@) ==> capture_view(
            result,
        ) == Ok::<Seq<char>, RunErrorView>(decode_utf8(stdout@)),
{
    let text = match &outcome {
        RunOutcome::Exited { stdout } => decode_lossy(stdout),
        _ => String::new(),
    };
    capture_text(outcome, text)
}

} // verus!
