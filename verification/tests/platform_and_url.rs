use upder::platform::{platform_from_lookup, platform_from_os_name, resolve_platform, Platform};
use upder::url::{build_download_url, Url};

#[test]
fn known_identifiers_map_to_their_platform() {
    assert_eq!(platform_from_os_name("Linux"), Platform::Linux);
    assert_eq!(platform_from_os_name("Darwin"), Platform::Mac);
}

#[test]
fn unrecognised_identifiers_fall_back_to_linux() {
    assert_eq!(platform_from_os_name("Windows"), Platform::Linux);
    assert_eq!(platform_from_os_name(""), Platform::Linux);
    assert_eq!(platform_from_os_name("darwin"), Platform::Linux);
    assert_eq!(platform_from_os_name("Darwin "), Platform::Linux);
}

#[test]
fn failed_lookup_falls_back_to_linux() {
    assert_eq!(platform_from_lookup(None), Platform::Linux);
    assert_eq!(platform_from_lookup(Some("Darwin")), Platform::Mac);
}

#[test]
fn resolved_platform_is_linux_or_mac() {
    let platform = resolve_platform();
    assert!(platform == Platform::Linux || platform == Platform::Mac);
}

#[test]
fn download_url_on_linux() {
    assert_eq!(
        build_download_url("rust-analyzer", Platform::Linux),
        "https://github.com/rust-analyzer/rust-analyzer/releases/download/nightly/rust-analyzer-linux"
    );
}

#[test]
fn download_url_on_mac() {
    assert_eq!(
        build_download_url("rust-analyzer", Platform::Mac),
        "https://github.com/rust-analyzer/rust-analyzer/releases/download/nightly/rust-analyzer-mac"
    );
}

#[test]
fn platform_tags() {
    assert_eq!(Platform::Linux.tag(), "linux");
    assert_eq!(Platform::Mac.tag(), "mac");
}

#[test]
fn new_url_is_empty() {
    assert_eq!(Url::new().uri, "");
}

#[test]
fn url_for_platform_names_the_analyzer() {
    assert_eq!(
        Url::for_platform(Platform::Mac).uri,
        "https://github.com/rust-analyzer/rust-analyzer/releases/download/nightly/rust-analyzer-mac"
    );
}

#[test]
fn url_built_for_this_machine_is_one_of_the_two() {
    let linux = Url::for_platform(Platform::Linux).uri;
    let mac = Url::for_platform(Platform::Mac).uri;
    let built = Url::new().get_url().uri;
    assert!(built == linux || built == mac);
    assert_eq!(built, Url::new().build_url());
}
