//! Taking the steps of a run, one event at a time.
//!
//! The caller starts with `Event::Begin`, performs the action that `run_step`
//! answers with, and reports what happened as the next event, until the
//! action is `Action::Exit`.  A failure ends the run at once: the steps that
//! are left are not taken and nothing is undone.
use crate::error::{UpdateError, UpdateErrorView};
use crate::fetch::{DownloadTarget, DownloadTargetView};
use crate::plan::{config_variable, plan_of, schedule_steps, EnvironmentView, Step, StepView};
use crate::platform::Platform;
use crate::runner::{Command, CommandView};
use vstd::prelude::*;
use vstd::string::*;

verus! {

/// What happened to the action asked for last.
#[derive(Clone, Debug, PartialEq, Eq)]
pub enum Event {
    /// The run is to start.
    Begin,
    /// The action was carried out.
    Done,
    /// Whether the executable is on the search path.
    Located { found: bool },
    /// The command ran and printed `text`.
    Output { text: String },
    /// The action failed.
    Failed { error: UpdateError },
}

/// An `Event` with its texts as sequences of characters.
pub enum EventView {
    Begin,
    Done,
    Located { found: bool },
    Output { text: Seq<char> },
    Failed { error: UpdateErrorView },
}

impl View for Event {
    type V = EventView;

    open spec fn view(&self) -> EventView {
        match *self {
            Event::Begin => EventView::Begin,
            Event::Done => EventView::Done,
            Event::Located { found } => EventView::Located { found },
            Event::Output { text } => EventView::Output { text: text@ },
            Event::Failed { error } => EventView::Failed { error: error@ },
        }
    }
}

/// What the caller is to do next.
#[derive(Debug, PartialEq, Eq)]
pub enum Action {
    /// Look for the executable `name` on the search path, then report
    /// `Located`.
    Locate { name: String },
    /// Remove the file `path`.
    RemoveFile { path: String },
    /// Run `command` and wait for it, then report its `Output`.
    Run { command: Command },
    /// Print `text`.
    Print { text: String },
    /// Create the directory `path` and the directories above it.
    CreateDirAll { path: String },
    /// Write `contents` to the file `path`, in place of what it held.
    WriteFile { path: String, contents: String },
    /// Download `target`.
    Fetch { target: DownloadTarget },
    /// Leave: with success if every step was taken, with the failure that
    /// ended the run otherwise.
    Exit { outcome: Result<(), UpdateError> },
}

/// An `Action` with its texts as sequences of characters.
pub enum ActionView {
    Locate { name: Seq<char> },
    RemoveFile { path: Seq<char> },
    Run { command: CommandView },
    Print { text: Seq<char> },
    CreateDirAll { path: Seq<char> },
    WriteFile { path: Seq<char>, contents: Seq<char> },
    Fetch { target: DownloadTargetView },
    Exit { outcome: Result<(), UpdateErrorView> },
}

impl View for Action {
    type V = ActionView;

    open spec fn view(&self) -> ActionView {
        match *self {
            Action::Locate { name } => ActionView::Locate { name: name@ },
            Action::RemoveFile { path } => ActionView::RemoveFile { path: path@ },
            Action::Run { command } => ActionView::Run { command: command@ },
            Action::Print { text } => ActionView::Print { text: text@ },
            Action::CreateDirAll { path } => ActionView::CreateDirAll { path: path@ },
            Action::WriteFile { path, contents } => ActionView::WriteFile {
                path: path@,
                contents: contents@,
            },
            Action::Fetch { target } => ActionView::Fetch { target: target@ },
            Action::Exit { outcome } => ActionView::Exit {
                outcome: match outcome {
                    Ok(_) => Ok(()),
                    Err(error) => Err(error@),
                },
            },
        }
    }
}

/// Where a run stands within a step.
#[derive(Clone, Copy, Debug, PartialEq, Eq, Structural)]
pub enum Phase {
    /// The run has not started.
    Idle,
    /// The first action of the step is out.
    First,
    /// The second action of the step is out.
    Second,
    /// The run is over.
    Stopped,
}

/// Where a run stands: at which step, and where within it.
#[derive(Clone, Copy, Debug, PartialEq, Eq, Structural)]
pub struct RunState {
    pub step: usize,
    pub phase: Phase,
}

/// The state of a run that has not started.
pub open spec fn initial() -> RunState {
    RunState { step: 0, phase: Phase::Idle }
}

impl RunState {
    /// The state of a run that has not started.
    pub fn new() -> (state: RunState)
        ensures
            state == initial(),
    {
        RunState { step: 0, phase: Phase::Idle }
    }
}

/// The message of the failure that an event out of turn ends the run with.
pub open spec fn out_of_turn() -> Seq<char> {
    "unexpected event"@
}

/// The end of a run that failed at `state`.
pub open spec fn aborted(state: RunState, error: UpdateErrorView) -> (RunState, ActionView) {
    (
        RunState { step: state.step, phase: Phase::Stopped },
        ActionView::Exit { outcome: Err(error) },
    )
}

/// What a step begins with.  A step that fails ends the run.
pub open spec fn first_action(step: StepView) -> (Phase, ActionView) {
    match step {
        StepView::Require { name } => (Phase::First, ActionView::Locate { name }),
        StepView::RemoveIfFound { name, path } => (Phase::First, ActionView::Locate { name }),
        StepView::Run { command, echo } => (Phase::First, ActionView::Run { command }),
        StepView::CreateDirAll { path } => (Phase::First, ActionView::CreateDirAll { path }),
        StepView::WriteFile { path, contents } => (
            Phase::First,
            ActionView::WriteFile { path, contents },
        ),
        StepView::Fetch { target } => (Phase::First, ActionView::Fetch { target }),
        StepView::Fail { error } => (Phase::Stopped, ActionView::Exit { outcome: Err(error) }),
    }
}

/// The run goes on with step `at`, or ends in success if the plan has no such
/// step.
pub open spec fn begin_step(plan: Seq<StepView>, at: int) -> (RunState, ActionView) {
    if 0 <= at < plan.len() {
        (RunState { step: at as usize, phase: first_action(plan[at]).0 }, first_action(plan[at]).1)
    } else {
        (
            RunState { step: plan.len() as usize, phase: Phase::Stopped },
            ActionView::Exit { outcome: Ok(()) },
        )
    }
}

/// How a step goes on when the action that is out has been carried out and
/// `event` came back, the failure of the action set aside.
///
/// An executable that is required and not found ends the run.  A stale file
/// is removed only if its executable was found.  What a command printed is
/// printed if the step says so; how the command exited is not looked at.
pub open spec fn continue_step(
    plan: Seq<StepView>,
    state: RunState,
    event: EventView,
) -> (RunState, ActionView)
    recommends
        state.step < plan.len(),
{
    let next = state.step + 1;
    match (plan[state.step as int], state.phase, event) {
        (StepView::Require { name }, Phase::First, EventView::Located { found }) => if found {
            begin_step(plan, next)
        } else {
            aborted(state, UpdateErrorView::ExecutableNotFound(name))
        },
        (StepView::RemoveIfFound { name, path }, Phase::First, EventView::Located { found }) => {
            if found {
                (RunState { step: state.step, phase: Phase::Second }, ActionView::RemoveFile { path })
            } else {
                begin_step(plan, next)
            }
        },
        (StepView::RemoveIfFound { name, path }, Phase::Second, EventView::Done) => begin_step(
            plan,
            next,
        ),
        (StepView::Run { command, echo }, Phase::First, EventView::Output { text }) => if echo {
            (RunState { step: state.step, phase: Phase::Second }, ActionView::Print { text })
        } else {
            begin_step(plan, next)
        },
        (StepView::Run { command, echo }, Phase::Second, EventView::Done) => begin_step(plan, next),
        (StepView::CreateDirAll { path }, Phase::First, EventView::Done) => begin_step(plan, next),
        (StepView::WriteFile { path, contents }, Phase::First, EventView::Done) => begin_step(
            plan,
            next,
        ),
        (StepView::Fetch { target }, Phase::First, EventView::Done) => begin_step(plan, next),
        _ => aborted(state, UpdateErrorView::IoError(out_of_turn())),
    }
}

/// The rules of a run: the state that follows `state` on `event`, and the
/// action to perform.
///
/// The steps of the plan are taken in order.  The failure of an action ends
/// the run with that failure, and so does a step that fails by itself; the
/// steps behind it are not taken.  When no step is left the run ends in
/// success.  An event that does not answer the action asked for last ends the
/// run too.
pub open spec fn transition(plan: Seq<StepView>, state: RunState, event: EventView) -> (
    RunState,
    ActionView,
) {
    match state.phase {
        Phase::Idle => match event {
            EventView::Begin => begin_step(plan, 0),
            _ => aborted(state, UpdateErrorView::IoError(out_of_turn())),
        },
        Phase::Stopped => aborted(state, UpdateErrorView::IoError(out_of_turn())),
        _ => if state.step < plan.len() {
            match event {
                EventView::Failed { error } => aborted(state, error),
                _ => continue_step(plan, state, event),
            }
        } else {
            aborted(state, UpdateErrorView::IoError(out_of_turn()))
        },
    }
}

/// Ends a run that failed at `state`.
fn abort(state: RunState, error: UpdateError) -> (next: (RunState, Action))
    ensures
        (next.0, next.1@) == aborted(state, error@),
{
    (RunState { step: state.step, phase: Phase::Stopped }, Action::Exit { outcome: Err(error) })
}

/// Ends a run on an event that does not answer the last action.
fn abort_out_of_turn(state: RunState) -> (next: (RunState, Action))
    ensures
        (next.0, next.1@) == aborted(state, UpdateErrorView::IoError(out_of_turn())),
{
    abort(state, UpdateError::IoError(String::from_str("unexpected event")))
}

/// Begins step `at` of the plan.
fn begin(plan: &Vec<Step>, at: usize) -> (next: (RunState, Action))
    ensures
        (next.0, next.1@) == begin_step(plan.deep_view(), at as int),
{
    if at >= plan.len() {
        return (
            RunState { step: plan.len(), phase: Phase::Stopped },
            Action::Exit { outcome: Ok(()) },
        );
    }
    let running = RunState { step: at, phase: Phase::First };
    match &plan[at] {
        Step::Require { name } => (running, Action::Locate { name: name.clone() }),
        Step::RemoveIfFound { name, path } => (running, Action::Locate { name: name.clone() }),
        Step::Run { command, echo } => (running, Action::Run { command: command.duplicate() }),
        Step::CreateDirAll { path } => (running, Action::CreateDirAll { path: path.clone() }),
        Step::WriteFile { path, contents } => (
            running,
            Action::WriteFile { path: path.clone(), contents: contents.clone() },
        ),
        Step::Fetch { target } => (running, Action::Fetch { target: target.duplicate() }),
        Step::Fail { error } => (
            RunState { step: at, phase: Phase::Stopped },
            Action::Exit { outcome: Err(error.duplicate()) },
        ),
    }
}

/// Goes on within the step that `state` stands at.
fn proceed(plan: &Vec<Step>, state: RunState, event: Event) -> (next: (RunState, Action))
    requires
        state.step < plan.len(),
        state.phase == Phase::First || state.phase == Phase::Second,
        !(event@ is Failed),
    ensures
        (next.0, next.1@) == continue_step(plan.deep_view(), state, event@),
{
    let second = RunState { step: state.step, phase: Phase::Second };
    let first = match state.phase {
        Phase::First => true,
        _ => false,
    };
    match &plan[state.step] {
        Step::Require { name } => match event {
            Event::Located { found } => if !first {
                abort_out_of_turn(state)
            } else if found {
                begin(plan, state.step + 1)
            } else {
                abort(state, UpdateError::ExecutableNotFound(name.clone()))
            },
            _ => abort_out_of_turn(state),
        },
        Step::RemoveIfFound { name, path } => match event {
            Event::Located { found } => if !first {
                abort_out_of_turn(state)
            } else if found {
                (second, Action::RemoveFile { path: path.clone() })
            } else {
                begin(plan, state.step + 1)
            },
            Event::Done => if first {
                abort_out_of_turn(state)
            } else {
                begin(plan, state.step + 1)
            },
            _ => abort_out_of_turn(state),
        },
        Step::Run { command, echo } => match event {
            Event::Output { text } => if !first {
                abort_out_of_turn(state)
            } else if *echo {
                (second, Action::Print { text })
            } else {
                begin(plan, state.step + 1)
            },
            Event::Done => if first {
                abort_out_of_turn(state)
            } else {
                begin(plan, state.step + 1)
            },
            _ => abort_out_of_turn(state),
        },
        Step::CreateDirAll { .. } | Step::WriteFile { .. } | Step::Fetch { .. } => match event {
            Event::Done => if first {
                begin(plan, state.step + 1)
            } else {
                abort_out_of_turn(state)
            },
            _ => abort_out_of_turn(state),
        },
        Step::Fail { .. } => abort_out_of_turn(state),
    }
}

/// Takes one step of a run of `plan`: from the state it is in and the event
/// that was reported to the state that follows and the action to perform, as
/// `transition` lays down.
pub fn run_step(plan: &Vec<Step>, state: RunState, event: Event) -> (next: (RunState, Action))
    ensures
        (next.0, next.1@) == transition(plan.deep_view(), state, event@),
{
    match state.phase {
        Phase::Idle => match event {
            Event::Begin => begin(plan, 0),
            _ => abort_out_of_turn(state),
        },
        Phase::Stopped => abort_out_of_turn(state),
        _ => if state.step < plan.len() {
            match event {
                Event::Failed { error } => abort(state, error),
                other => proceed(plan, state, other),
            }
        } else {
            abort_out_of_turn(state)
        },
    }
}

/// The failure of an action ends the run with that failure, whatever the
/// step and whatever is left of the plan.
pub proof fn lemma_failure_ends_run(plan: Seq<StepView>, state: RunState, error: UpdateErrorView)
    requires
        state.phase == Phase::First || state.phase == Phase::Second,
        state.step < plan.len(),
    ensures
        transition(plan, state, EventView::Failed { error }) == aborted(state, error),
{
}

/// A run leaves exactly when it stops, and a run that has stopped asks for
/// nothing but to leave.
pub proof fn lemma_exit_is_final(plan: Seq<StepView>, state: RunState, event: EventView)
    ensures
        transition(plan, state, event).1 is Exit <==> transition(plan, state, event).0.phase
            == Phase::Stopped,
        state.phase == Phase::Stopped ==> transition(plan, state, event).1 is Exit,
{
}

/// A run that is to install the scheduled task without a configuration root
/// ends with `EnvironmentVariableMissing` straight away: no action is asked
/// for before it leaves.
pub proof fn lemma_missing_config_root_ends_run(env: EnvironmentView, platform: Platform)
    requires
        env.config_root is None,
    ensures
        transition(plan_of(true, env, platform), initial(), EventView::Begin).1
            == (ActionView::Exit {
            outcome: Err(UpdateErrorView::EnvironmentVariableMissing(config_variable())),
        }),
{
    assert(plan_of(true, env, platform)[0] == schedule_steps(env)[0]);
}

} // verus!
