use upder::error::UpdateError;
use upder::fetch::DownloadTarget;
use upder::plan::{
    generate_systemd_timer, get_bin_path, plan, update_flutter, update_rust_analyzer,
    update_rustup, Environment, Step,
};
use upder::platform::Platform;
use upder::runner::Command;

fn command(program: &str, args: &[&str]) -> Command {
    Command {
        program: program.to_string(),
        args: args.iter().map(|arg| arg.to_string()).collect(),
    }
}

fn run(program: &str, args: &[&str]) -> Step {
    Step::Run { command: command(program, args), echo: true }
}

fn environment(home: Option<&str>, config_root: Option<&str>) -> Environment {
    Environment {
        home: home.map(String::from),
        config_root: config_root.map(String::from),
        search_path: Some("/usr/bin".to_string()),
    }
}

fn missing(name: &str) -> Step {
    Step::Fail { error: UpdateError::EnvironmentVariableMissing(name.to_string()) }
}

const LINUX_URL: &str =
    "https://github.com/rust-analyzer/rust-analyzer/releases/download/nightly/rust-analyzer-linux";

fn analyzer_for(home: &str, url: &str) -> Vec<Step> {
    let path = format!("{}/.local/bin/rust-analyzer", home);
    vec![
        Step::RemoveIfFound { name: "rust-analyzer".to_string(), path: path.clone() },
        Step::Fetch { target: DownloadTarget { url: url.to_string(), dest: path.clone() } },
        Step::Run { command: command("chmod", &["+x", &path]), echo: false },
    ]
}

fn rustup() -> Vec<Step> {
    vec![
        Step::Require { name: "rustup".to_string() },
        run("rustup", &["self", "update"]),
        run("rustup", &["self", "upgrade-data"]),
        run("rustup", &["update"]),
    ]
}

fn flutter() -> Vec<Step> {
    vec![Step::Require { name: "flutter".to_string() }, run("flutter", &["upgrade", "--verbose"])]
}

fn schedule_for(root: &str, home: &str) -> Vec<Step> {
    vec![
        Step::CreateDirAll { path: format!("{}/systemd/user", root) },
        Step::WriteFile {
            path: format!("{}/systemd/user/upder.service", root),
            contents: format!(
                "\n        [Unit]\n        Description=Updates flutter, rust-analyzer, rustup\n\n        [Service]\n        Type=oneshot\n        ExecStart={}/.local/bin/rust-analyzer\n        StandardOutput=journal",
                home
            ),
        },
        Step::WriteFile {
            path: format!("{}/systemd/user/upder.timer", root),
            contents: "\n        [Unit]\n        Description=Updates flutter, rust-analyzer, rustup\n\n        [Timer]\n        OnCalendar=daily\n        Persistent=true\n\n        [Install]\n        WantedBy=timers.target".to_string(),
        },
        run("systemctl", &["--user", "enable", "--now", "upder.timer"]),
    ]
}

#[test]
fn bin_path_is_below_the_home_directory() {
    assert_eq!(get_bin_path(Some("/home/u")), Ok("/home/u/.local/bin/rust-analyzer".to_string()));
    assert_eq!(get_bin_path(Some("")), Ok("/.local/bin/rust-analyzer".to_string()));
}

#[test]
fn bin_path_needs_a_home_directory() {
    assert_eq!(
        get_bin_path(None),
        Err(UpdateError::EnvironmentVariableMissing("HOME".to_string()))
    );
}

#[test]
fn rustup_updates_itself_its_data_and_the_toolchains() {
    assert_eq!(update_rustup(), rustup());
}

#[test]
fn flutter_upgrades_verbosely() {
    assert_eq!(update_flutter(), flutter());
}

#[test]
fn analyzer_is_removed_fetched_and_made_executable() {
    assert_eq!(
        update_rust_analyzer(Some("/home/u"), Platform::Linux),
        analyzer_for("/home/u", LINUX_URL)
    );
}

#[test]
fn analyzer_for_the_mac_comes_from_the_mac_asset() {
    let steps = update_rust_analyzer(Some("/Users/u"), Platform::Mac);
    assert_eq!(
        steps,
        analyzer_for(
            "/Users/u",
            "https://github.com/rust-analyzer/rust-analyzer/releases/download/nightly/rust-analyzer-mac"
        )
    );
}

#[test]
fn analyzer_without_home_fails() {
    assert_eq!(update_rust_analyzer(None, Platform::Linux), vec![missing("HOME")]);
}

#[test]
fn schedule_writes_both_units_and_enables_the_timer() {
    let env = environment(Some("/home/u"), Some("/home/u/.config"));
    assert_eq!(generate_systemd_timer(&env), schedule_for("/home/u/.config", "/home/u"));
}

#[test]
fn schedule_without_configuration_root_fails_first() {
    let env = environment(Some("/home/u"), None);
    assert_eq!(generate_systemd_timer(&env), vec![missing("XDG_CONFIG_HOME")]);
    let env = environment(None, None);
    assert_eq!(generate_systemd_timer(&env), vec![missing("XDG_CONFIG_HOME")]);
}

#[test]
fn schedule_without_home_fails_once_the_directory_is_there() {
    let env = environment(None, Some("/cfg"));
    assert_eq!(
        generate_systemd_timer(&env),
        vec![Step::CreateDirAll { path: "/cfg/systemd/user".to_string() }, missing("HOME")]
    );
}

#[test]
fn schedule_installed_twice_writes_identical_documents() {
    let env = environment(Some("/home/u"), Some("/home/u/.config"));
    let first = generate_systemd_timer(&env);
    let second = generate_systemd_timer(&env);
    assert_eq!(first, second);
    for (one, other) in first.iter().zip(second.iter()) {
        if let (Step::WriteFile { contents: a, .. }, Step::WriteFile { contents: b, .. }) =
            (one, other)
        {
            assert_eq!(a.as_bytes(), b.as_bytes());
        }
    }
}

#[test]
fn plan_without_flag_updates_the_three_tools_in_order() {
    let env = environment(Some("/home/u"), None);
    let mut expected = rustup();
    expected.extend(flutter());
    expected.extend(analyzer_for("/home/u", LINUX_URL));
    assert_eq!(plan(false, &env, Platform::Linux), expected);
}

#[test]
fn plan_with_flag_installs_the_schedule_first() {
    let env = environment(Some("/home/u"), Some("/cfg"));
    let mut expected = schedule_for("/cfg", "/home/u");
    expected.extend(rustup());
    expected.extend(flutter());
    expected.extend(analyzer_for("/home/u", LINUX_URL));
    assert_eq!(plan(true, &env, Platform::Linux), expected);
}

#[test]
fn plan_with_flag_and_without_configuration_root_begins_with_the_failure() {
    let env = environment(Some("/home/u"), None);
    let steps = plan(true, &env, Platform::Linux);
    assert_eq!(steps[0], missing("XDG_CONFIG_HOME"));
}

#[test]
fn plan_without_home_fails_only_at_the_analyzer() {
    let env = environment(None, None);
    let mut expected = rustup();
    expected.extend(flutter());
    expected.push(missing("HOME"));
    assert_eq!(plan(false, &env, Platform::Mac), expected);
}
