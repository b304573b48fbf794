use upder::schedule::{service_unit, timer_unit, unit_dir};

#[test]
fn service_unit_runs_the_command_once() {
    assert_eq!(
        service_unit("/home/u/.local/bin/rust-analyzer"),
        "\n        [Unit]\n        Description=Updates flutter, rust-analyzer, rustup\n\n        [Service]\n        Type=oneshot\n        ExecStart=/home/u/.local/bin/rust-analyzer\n        StandardOutput=journal"
    );
}

#[test]
fn timer_unit_is_daily_and_persistent() {
    let text = timer_unit();
    assert_eq!(
        text,
        "\n        [Unit]\n        Description=Updates flutter, rust-analyzer, rustup\n\n        [Timer]\n        OnCalendar=daily\n        Persistent=true\n\n        [Install]\n        WantedBy=timers.target"
    );
    assert!(text.contains("OnCalendar=daily"));
    assert!(text.contains("Persistent=true"));
    assert!(text.contains("WantedBy=timers.target"));
}

#[test]
fn units_are_the_same_on_every_rendering() {
    assert_eq!(service_unit("/bin/ra"), service_unit("/bin/ra"));
    assert_eq!(timer_unit(), timer_unit());
    assert_eq!(service_unit("/bin/ra").as_bytes(), service_unit("/bin/ra").as_bytes());
}

#[test]
fn service_unit_differs_only_in_the_command() {
    let one = service_unit("/a");
    let other = service_unit("/b");
    assert_ne!(one, other);
    assert_eq!(one.replace("ExecStart=/a", "ExecStart=/b"), other);
}

#[test]
fn units_live_below_the_configuration_root() {
    assert_eq!(unit_dir("/home/u/.config"), "/home/u/.config/systemd/user");
    assert_eq!(unit_dir("/home/u/.config/"), "/home/u/.config/systemd/user");
    assert_eq!(unit_dir(""), "systemd/user");
}
