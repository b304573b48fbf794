use upder::locate::{
    candidates, exe_bool_exists, exe_exists, find_exe, search_step, NotFoundError, SearchAction,
    SearchEvent,
};

fn texts(items: &[&str]) -> Vec<String> {
    items.iter().map(|item| item.to_string()).collect()
}

#[test]
fn one_candidate_per_directory() {
    assert_eq!(
        candidates(Some("/usr/local/bin:/usr/bin"), "rustup"),
        texts(&["/usr/local/bin/rustup", "/usr/bin/rustup"])
    );
}

#[test]
fn no_candidates_without_a_search_path() {
    assert_eq!(candidates(None, "rustup"), Vec::<String>::new());
}

#[test]
fn empty_search_path_has_the_bare_name_as_candidate() {
    assert_eq!(candidates(Some(""), "rustup"), texts(&["rustup"]));
}

#[test]
fn search_probes_in_order_and_stops_at_the_first_file() {
    let places = texts(&["/a/tool", "/b/tool", "/c/tool"]);
    let (state, action) = search_step(&places, None, SearchEvent::Begin);
    assert_eq!(state, Some(0));
    assert_eq!(action, SearchAction::Probe { path: "/a/tool".to_string() });
    let (state, action) = search_step(&places, state, SearchEvent::Probed { is_file: false });
    assert_eq!(state, Some(1));
    assert_eq!(action, SearchAction::Probe { path: "/b/tool".to_string() });
    let (state, action) = search_step(&places, state, SearchEvent::Probed { is_file: true });
    assert_eq!(state, Some(3));
    assert_eq!(action, SearchAction::Finish { found: Some("/b/tool".to_string()) });
}

#[test]
fn search_ends_without_a_find_when_no_place_is_left() {
    let places = texts(&["/a/tool"]);
    let (state, _) = search_step(&places, None, SearchEvent::Begin);
    let (state, action) = search_step(&places, state, SearchEvent::Probed { is_file: false });
    assert_eq!(state, Some(1));
    assert_eq!(action, SearchAction::Finish { found: None });
}

#[test]
fn search_without_places_ends_at_once() {
    let (state, action) = search_step(&Vec::new(), None, SearchEvent::Begin);
    assert_eq!(state, Some(0));
    assert_eq!(action, SearchAction::Finish { found: None });
}

#[test]
fn search_event_out_of_turn_finds_nothing() {
    let places = texts(&["/a/tool"]);
    let (_, action) = search_step(&places, None, SearchEvent::Probed { is_file: true });
    assert_eq!(action, SearchAction::Finish { found: None });
    let (_, action) = search_step(&places, Some(0), SearchEvent::Begin);
    assert_eq!(action, SearchAction::Finish { found: None });
    let (_, action) = search_step(&places, Some(1), SearchEvent::Probed { is_file: true });
    assert_eq!(action, SearchAction::Finish { found: None });
}

#[test]
fn find_exe_returns_nothing_when_no_directory_matches() {
    let files = texts(&["/usr/bin/cargo", "/opt/bin/tool"]);
    assert_eq!(find_exe(Some("/usr/bin:/usr/local/bin"), "rustup", &files), None);
}

#[test]
fn find_exe_returns_the_joined_path_of_the_one_match() {
    let files = texts(&["/usr/bin/rustup"]);
    assert_eq!(
        find_exe(Some("/usr/local/bin:/usr/bin:/bin"), "rustup", &files),
        Some("/usr/bin/rustup".to_string())
    );
}

#[test]
fn find_exe_prefers_the_earlier_directory() {
    let files = texts(&["/bin/rustup", "/usr/bin/rustup"]);
    assert_eq!(
        find_exe(Some("/usr/bin:/bin"), "rustup", &files),
        Some("/usr/bin/rustup".to_string())
    );
}

#[test]
fn find_exe_returns_nothing_without_a_search_path() {
    let files = texts(&["/usr/bin/rustup", "rustup"]);
    assert_eq!(find_exe(None, "rustup", &files), None);
}

#[test]
fn exe_exists_hands_on_the_place() {
    assert_eq!(
        exe_exists("rustup", Some("/usr/bin/rustup".to_string())),
        Ok("/usr/bin/rustup".to_string())
    );
}

#[test]
fn exe_exists_fails_with_the_name() {
    assert_eq!(
        exe_exists("flutter", None),
        Err(NotFoundError { name: "flutter".to_string() })
    );
}

#[test]
fn exe_bool_exists_tells_whether_something_was_found() {
    assert!(exe_bool_exists(&Some("/usr/bin/rustup".to_string())));
    assert!(!exe_bool_exists(&None));
}
