//! What a run consists of: the steps of each update and of the scheduled
//! task, laid out before any of them is taken.
use crate::error::{UpdateError, UpdateErrorView};
use crate::fetch::{DownloadTarget, DownloadTargetView};
use crate::platform::Platform;
use crate::runner::{Command, CommandView};
use crate::schedule::{
    service_file_name, service_unit, service_unit_text, timer_file_name, timer_unit,
    timer_unit_text, unit_dir, unit_dir_of,
};
use crate::paths::{join_path, joined};
use crate::text::{optional_slice, optional_text};
use crate::url::{analyzer_name, build_download_url, download_url_of};
use vstd::prelude::*;
use vstd::string::*;

verus! {

/// What a run reads from its environment.  A variable that is not set is
/// `None`.
#[derive(Clone, Debug, PartialEq, Eq)]
pub struct Environment {
    /// The user's home directory (`HOME`).
    pub home: Option<String>,
    /// The root of the user's configuration (`XDG_CONFIG_HOME`).
    pub config_root: Option<String>,
    /// The directories that executables are looked for in (`PATH`).
    pub search_path: Option<String>,
}

/// An `Environment` with its texts as sequences of characters.
pub struct EnvironmentView {
    pub home: Option<Seq<char>>,
    pub config_root: Option<Seq<char>>,
    pub search_path: Option<Seq<char>>,
}

impl View for Environment {
    type V = EnvironmentView;

    open spec fn view(&self) -> EnvironmentView {
        EnvironmentView {
            home: optional_text(self.home),
            config_root: optional_text(self.config_root),
            search_path: optional_text(self.search_path),
        }
    }
}

/// One step of a run.
#[derive(Clone, Debug, PartialEq, Eq)]
pub enum Step {
    /// The executable `name` has to be on the search path, or the run ends.
    Require { name: String },
    /// If the executable `name` is on the search path, the file `path` is
    /// removed.
    RemoveIfFound { name: String, path: String },
    /// `command` is run; with `echo`, what it prints is printed.
    Run { command: Command, echo: bool },
    /// The directory `path` is created with the directories above it; one
    /// that is there already is left alone.
    CreateDirAll { path: String },
    /// The file `path` is written with `contents` in place of what it held.
    WriteFile { path: String, contents: String },
    /// `target` is downloaded.
    Fetch { target: DownloadTarget },
    /// The run ends with `error`.
    Fail { error: UpdateError },
}

/// A `Step` with its texts as sequences of characters.
pub enum StepView {
    Require { name: Seq<char> },
    RemoveIfFound { name: Seq<char>, path: Seq<char> },
    Run { command: CommandView, echo: bool },
    CreateDirAll { path: Seq<char> },
    WriteFile { path: Seq<char>, contents: Seq<char> },
    Fetch { target: DownloadTargetView },
    Fail { error: UpdateErrorView },
}

impl View for Step {
    type V = StepView;

    open spec fn view(&self) -> StepView {
        match *self {
            Step::Require { name } => StepView::Require { name: name@ },
            Step::RemoveIfFound { name, path } => StepView::RemoveIfFound {
                name: name@,
                path: path@,
            },
            Step::Run { command, echo } => StepView::Run { command: command@, echo },
            Step::CreateDirAll { path } => StepView::CreateDirAll { path: path@ },
            Step::WriteFile { path, contents } => StepView::WriteFile {
                path: path@,
                contents: contents@,
            },
            Step::Fetch { target } => StepView::Fetch { target: target@ },
            Step::Fail { error } => StepView::Fail { error: error@ },
        }
    }
}

impl DeepView for Step {
    type V = StepView;

    open spec fn deep_view(&self) -> StepView {
        self@
    }
}

/// The name of the variable that holds the home directory.
pub open spec fn home_variable() -> Seq<char> {
    "HOME"@
}

/// The name of the variable that holds the configuration root.
pub open spec fn config_variable() -> Seq<char> {
    "XDG_CONFIG_HOME"@
}

/// Where the language server is installed below the home directory.
pub open spec fn bin_path_of(home: Seq<char>) -> Seq<char> {
    home + "/.local/bin/"@ + analyzer_name()
}

/// Where the language server is installed, or the failure of a run without a
/// home directory.
pub open spec fn bin_path_or_error(home: Option<Seq<char>>) -> Result<Seq<char>, UpdateErrorView> {
    match home {
        Some(home) => Ok(bin_path_of(home)),
        None => Err(UpdateErrorView::EnvironmentVariableMissing(home_variable())),
    }
}

/// A command of one argument.
pub open spec fn command1(program: Seq<char>, first: Seq<char>) -> CommandView {
    CommandView { program, args: seq![first] }
}

/// A command of two arguments.
pub open spec fn command2(program: Seq<char>, first: Seq<char>, second: Seq<char>) -> CommandView {
    CommandView { program, args: seq![first, second] }
}

/// A step that runs `command` and prints what it prints.
pub open spec fn run_and_print(command: CommandView) -> StepView {
    StepView::Run { command, echo: true }
}

/// The steps that update the toolchain manager: it has to be on the search
/// path; then it updates itself, its data and the toolchains, in this order.
pub open spec fn rustup_steps() -> Seq<StepView> {
    seq![
        StepView::Require { name: "rustup"@ },
        run_and_print(command2("rustup"@, "self"@, "update"@)),
        run_and_print(command2("rustup"@, "self"@, "upgrade-data"@)),
        run_and_print(command1("rustup"@, "update"@)),
    ]
}

/// The steps that update the UI SDK: it has to be on the search path; then
/// it upgrades itself.
pub open spec fn flutter_steps() -> Seq<StepView> {
    seq![
        StepView::Require { name: "flutter"@ },
        run_and_print(command2("flutter"@, "upgrade"@, "--verbose"@)),
    ]
}

/// The steps that install the language server for `platform`: a binary
/// that is installed already is removed, the nightly build is downloaded to
/// its place below the home directory and made executable.  Without a home
/// directory the run ends.
pub open spec fn analyzer_steps(home: Option<Seq<char>>, platform: Platform) -> Seq<StepView> {
    match bin_path_or_error(home) {
        Ok(path) => seq![
            StepView::RemoveIfFound { name: analyzer_name(), path },
            StepView::Fetch {
                target: DownloadTargetView {
                    url: download_url_of(analyzer_name(), platform),
                    dest: path,
                },
            },
            StepView::Run { command: command2("chmod"@, "+x"@, path), echo: false },
        ],
        Err(error) => seq![StepView::Fail { error }],
    }
}

/// The command that enables the timer and starts it at once.
pub open spec fn enable_timer() -> CommandView {
    CommandView {
        program: "systemctl"@,
        args: seq!["--user"@, "enable"@, "--now"@, timer_file_name()],
    }
}

/// The steps that install the scheduled task: the directory for the user's
/// units is created below the configuration root, the service unit (which
/// runs the installed language server) and the timer unit are written there,
/// and the timer is enabled and started.  Without a configuration root the
/// run ends before anything is done; without a home directory it ends once
/// the directory is there.
pub open spec fn schedule_steps(env: EnvironmentView) -> Seq<StepView> {
    match env.config_root {
        None => seq![
            StepView::Fail { error: UpdateErrorView::EnvironmentVariableMissing(config_variable()) },
        ],
        Some(root) => {
            let dir = unit_dir_of(root);
            match bin_path_or_error(env.home) {
                Err(error) => seq![StepView::CreateDirAll { path: dir }, StepView::Fail { error }],
                Ok(bin_path) => seq![
                    StepView::CreateDirAll { path: dir },
                    StepView::WriteFile {
                        path: joined(dir, service_file_name()),
                        contents: service_unit_text(bin_path),
                    },
                    StepView::WriteFile {
                        path: joined(dir, timer_file_name()),
                        contents: timer_unit_text(),
                    },
                    run_and_print(enable_timer()),
                ],
            }
        },
    }
}

/// The steps of a whole run: the scheduled task first if it was asked for,
/// then the toolchain manager, the UI SDK and the language server.
pub open spec fn plan_of(gen: bool, env: EnvironmentView, platform: Platform) -> Seq<StepView> {
    (if gen {
        schedule_steps(env)
    } else {
        Seq::empty()
    }) + rustup_steps() + flutter_steps() + analyzer_steps(env.home, platform)
}

/// The view of a path or the failure in its place.
pub open spec fn path_result_view(result: Result<String, UpdateError>) -> Result<
    Seq<char>,
    UpdateErrorView,
> {
    match result {
        Ok(path) => Ok(path@),
        Err(error) => Err(error@),
    }
}

/// Where the language server is installed, given the home directory.
pub fn get_bin_path(home: Option<&str>) -> (result: Result<String, UpdateError>)
    ensures
        path_result_view(result) == bin_path_or_error(optional_slice(home)),
{
    match home {
        Some(home) => {
            let mut path = String::from_str(home);
            path.append("/.local/bin/");
            path.append("rust-analyzer");
            Ok(path)
        },
        None => Err(UpdateError::EnvironmentVariableMissing(String::from_str("HOME"))),
    }
}

/// Builds a command of one argument.
fn make_command1(program: &str, first: &str) -> (command: Command)
    ensures
        command@ == command1(program@, first@),
{
    let mut args: Vec<String> = Vec::new();
    args.push(String::from_str(first));
    assert(args.deep_view() =~= seq![first@]);
    Command { program: String::from_str(program), args }
}

/// Builds a command of two arguments.
fn make_command2(program: &str, first: &str, second: &str) -> (command: Command)
    ensures
        command@ == command2(program@, first@, second@),
{
    let mut args: Vec<String> = Vec::new();
    args.push(String::from_str(first));
    args.push(String::from_str(second));
    assert(args.deep_view() =~= seq![first@, second@]);
    Command { program: String::from_str(program), args }
}

/// Builds the step that runs `command` and prints what it prints.
fn print_output_of(command: Command) -> (step: Step)
    ensures
        step@ == run_and_print(command@),
{
    Step::Run { command, echo: true }
}

/// Lays out the update of the toolchain manager.
pub fn update_rustup() -> (steps: Vec<Step>)
    ensures
        steps.deep_view() == rustup_steps(),
{
    let mut steps: Vec<Step> = Vec::new();
    steps.push(Step::Require { name: String::from_str("rustup") });
    steps.push(print_output_of(make_command2("rustup", "self", "update")));
    steps.push(print_output_of(make_command2("rustup", "self", "upgrade-data")));
    steps.push(print_output_of(make_command1("rustup", "update")));
    steps
}

/// Lays out the update of the UI SDK.
pub fn update_flutter() -> (steps: Vec<Step>)
    ensures
        steps.deep_view() == flutter_steps(),
{
    let mut steps: Vec<Step> = Vec::new();
    steps.push(Step::Require { name: String::from_str("flutter") });
    steps.push(print_output_of(make_command2("flutter", "upgrade", "--verbose")));
    steps
}

/// Lays out the installation of the language server for `platform`.
pub fn update_rust_analyzer(home: Option<&str>, platform: Platform) -> (steps: Vec<Step>)
    ensures
        steps.deep_view() == analyzer_steps(optional_slice(home), platform),
{
    let mut steps: Vec<Step> = Vec::new();
    match get_bin_path(home) {
        Ok(path) => {
            let url = build_download_url("rust-analyzer", platform);
            let chmod = make_command2("chmod", "+x", path.as_str());
            steps.push(
                Step::RemoveIfFound { name: String::from_str("rust-analyzer"), path: path.clone() },
            );
            steps.push(Step::Fetch { target: DownloadTarget { url, dest: path } });
            steps.push(Step::Run { command: chmod, echo: false });
        },
        Err(error) => {
            steps.push(Step::Fail { error });
        },
    }
    steps
}

/// Builds the command that enables the timer and starts it at once.
fn make_enable_timer() -> (command: Command)
    ensures
        command@ == enable_timer(),
{
    let mut args: Vec<String> = Vec::new();
    args.push(String::from_str("--user"));
    args.push(String::from_str("enable"));
    args.push(String::from_str("--now"));
    args.push(String::from_str("upder.timer"));
    assert(args.deep_view() =~= seq!["--user"@, "enable"@, "--now"@, timer_file_name()]);
    Command { program: String::from_str("systemctl"), args }
}

/// Hands out a variable that may be unset as a string slice.
fn as_slice(value: &Option<String>) -> (slice: Option<&str>)
    ensures
        optional_slice(slice) == optional_text(*value),
{
    match value {
        Some(text) => Some(text.as_str()),
        None => None,
    }
}

/// Lays out the installation of the scheduled task.
pub fn generate_systemd_timer(env: &Environment) -> (steps: Vec<Step>)
    ensures
        steps.deep_view() == schedule_steps(env@),
{
    let mut steps: Vec<Step> = Vec::new();
    match &env.config_root {
        None => {
            steps.push(
                Step::Fail {
                    error: UpdateError::EnvironmentVariableMissing(
                        String::from_str("XDG_CONFIG_HOME"),
                    ),
                },
            );
        },
        Some(root) => {
            let dir = unit_dir(root.as_str());
            match get_bin_path(as_slice(&env.home)) {
                Err(error) => {
                    steps.push(Step::CreateDirAll { path: dir });
                    steps.push(Step::Fail { error });
                },
                Ok(bin_path) => {
                    let service_path = join_path(dir.as_str(), "upder.service");
                    let timer_path = join_path(dir.as_str(), "upder.timer");
                    steps.push(Step::CreateDirAll { path: dir });
                    steps.push(
                        Step::WriteFile {
                            path: service_path,
                            contents: service_unit(bin_path.as_str()),
                        },
                    );
                    steps.push(Step::WriteFile { path: timer_path, contents: timer_unit() });
                    steps.push(print_output_of(make_enable_timer()));
                },
            }
        },
    }
    steps
}

/// Lays out a whole run.
pub fn plan(gen: bool, env: &Environment, platform: Platform) -> (steps: Vec<Step>)
    ensures
        steps.deep_view() == plan_of(gen, env@, platform),
{
    let mut steps: Vec<Step> = if gen {
        generate_systemd_timer(env)
    } else {
        Vec::new()
    };
    let mut rustup = update_rustup();
    let mut flutter = update_flutter();
    let mut analyzer = update_rust_analyzer(as_slice(&env.home), platform);
    let ghost first = steps.deep_view();
    steps.append(&mut rustup);
    assert(steps.deep_view() =~= first + rustup_steps());
    steps.append(&mut flutter);
    assert(steps.deep_view() =~= first + rustup_steps() + flutter_steps());
    steps.append(&mut analyzer);
    assert(steps.deep_view() =~= plan_of(gen, env@, platform));
    steps
}

/// Installing the scheduled task twice in one environment writes the same
/// two documents to the same two files: what is written depends on the home
/// directory and the configuration root and on nothing else.
pub proof fn lemma_schedule_is_reproducible(first: EnvironmentView, second: EnvironmentView)
    requires
        first.home == second.home,
        first.config_root == second.config_root,
    ensures
        schedule_steps(first) == schedule_steps(second),
{
}

} // verus!
