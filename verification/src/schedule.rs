//! The scheduled task that runs the update once a day: a service unit and a
//! timer unit for the user's service manager.
use crate::paths::{join_path, joined};
use vstd::prelude::*;
use vstd::string::*;

verus! {

/// The name of the file that holds the service unit.
pub open spec fn service_file_name() -> Seq<char> {
    "upder.service"@
}

/// The name of the file that holds the timer unit, which is also the name the
/// service manager knows the timer by.
pub open spec fn timer_file_name() -> Seq<char> {
    "upder.timer"@
}

/// The directory, below the configuration root, where the user's units are
/// kept.
pub open spec fn unit_dir_of(config_root: Seq<char>) -> Seq<char> {
    joined(joined(config_root, "systemd"@), "user"@)
}

/// The text of the service unit that runs `command` once when triggered.
pub open spec fn service_unit_text(command: Seq<char>) -> Seq<char> {
    "\n        [Unit]\n        Description=Updates flutter, rust-analyzer, rustup\n\n        [Service]\n        Type=oneshot\n        ExecStart="@
        + command + "\n        StandardOutput=journal"@
}

/// The text of the timer unit: once per calendar day, catching up on runs
/// that were missed, started with the other timers.
pub open spec fn timer_unit_text() -> Seq<char> {
    "\n        [Unit]\n        Description=Updates flutter, rust-analyzer, rustup\n\n        [Timer]\n        OnCalendar=daily\n        Persistent=true\n\n        [Install]\n        WantedBy=timers.target"@
}

/// The directory for the user's units below `config_root`.
pub fn unit_dir(config_root: &str) -> (dir: String)
    ensures
        dir@ == unit_dir_of(config_root@),
{
    let systemd = join_path(config_root, "systemd");
    join_path(systemd.as_str(), "user")
}

/// Renders the service unit for `command`.
pub fn service_unit(command: &str) -> (text: String)
    ensures
        text@ == service_unit_text(command@),
{
    let mut text = String::from_str(
        "\n        [Unit]\n        Description=Updates flutter, rust-analyzer, rustup\n\n        [Service]\n        Type=oneshot\n        ExecStart=",
    );
    text.append(command);
    text.append("\n        StandardOutput=journal");
    text
}

/// Renders the timer unit.
pub fn timer_unit() -> (text: String)
    ensures
        text@ == timer_unit_text(),
{
    String::from_str(
        "\n        [Unit]\n        Description=Updates flutter, rust-analyzer, rustup\n\n        [Timer]\n        OnCalendar=daily\n        Persistent=true\n\n        [Install]\n        WantedBy=timers.target",
    )
}

} // verus!
