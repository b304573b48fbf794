//! Finding an executable in the directories of the search path.
//!
//! Whether a file exists is for the caller to find out.  It starts a search
//! with `SearchEvent::Begin`, probes the path that `search_step` asks for and
//! reports the answer, until the action is `SearchAction::Finish`.
use crate::paths::{join_path, joined};
use crate::text::{contains_text, optional_slice, optional_text, split, split_at_char};
use vstd::prelude::*;
use vstd::string::*;

verus! {

/// The character between the directories of a search path.
pub const PATH_SEPARATOR: char = ':';

/// The places where `name` may be: one in each directory of the search
/// path, in the order of the path.  Without a search path there are none.
pub open spec fn candidates_of(search_path: Option<Seq<char>>, name: Seq<char>) -> Seq<Seq<char>> {
    match search_path {
        Some(path) => {
            let dirs = split(path, PATH_SEPARATOR);
            Seq::new(dirs.len(), |i: int| joined(dirs[i], name))
        },
        None => Seq::empty(),
    }
}

/// Lists the places where `name` may be, given the search path.
pub fn candidates(search_path: Option<&str>, name: &str) -> (places: Vec<String>)
    ensures
        places.deep_view() == candidates_of(optional_slice(search_path), name@),
{
    let mut places: Vec<String> = Vec::new();
    match search_path {
        None => {
        },
        Some(path) => {
            let dirs = split_at_char(path, PATH_SEPARATOR);
            let mut i: usize = 0;
            while i < dirs.len()
                invariant
                    i <= dirs.len(),
                    dirs.deep_view() == split(path@, PATH_SEPARATOR),
                    places.deep_view() == Seq::new(
                        i as nat,
                        |k: int| joined(split(path@, PATH_SEPARATOR)[k], name@),
                    ),
                decreases dirs.len() - i,
            {
                let place = join_path(dirs[i].as_str(), name);
                let ghost before = places.deep_view();
                places.push(place);
                assert(places.deep_view() =~= before.push(place@));
                i = i + 1;
            }
        },
    }
    places
}

/// What the caller reports to a search.
#[derive(Clone, Copy, Debug, PartialEq, Eq, Structural)]
pub enum SearchEvent {
    /// The search is to start.
    Begin,
    /// Whether the path asked about is a regular file.
    Probed { is_file: bool },
}

/// What the caller of a search is to do next.
#[derive(Clone, Debug, PartialEq, Eq)]
pub enum SearchAction {
    /// Find out whether `path` is a regular file, then report `Probed`.
    Probe { path: String },
    /// The search is over: the executable is at `found`, or nowhere.
    Finish { found: Option<String> },
}

/// A `SearchAction` with its paths as sequences of characters.
pub enum SearchActionView {
    Probe { path: Seq<char> },
    Finish { found: Option<Seq<char>> },
}

impl View for SearchAction {
    type V = SearchActionView;

    open spec fn view(&self) -> SearchActionView {
        match *self {
            SearchAction::Probe { path } => SearchActionView::Probe { path: path@ },
            SearchAction::Finish { found } => SearchActionView::Finish {
                found: optional_text(found),
            },
        }
    }
}

/// How far a search has come: `None` before it starts, then the number of
/// the place that is being probed.  A search that is over stands behind the
/// last place.
pub type SearchState = Option<usize>;

/// The end of a search.
pub open spec fn finished(places: Seq<Seq<char>>, found: Option<Seq<char>>) -> (
    SearchState,
    SearchActionView,
) {
    (Some(places.len() as usize), SearchActionView::Finish { found })
}

/// Probing goes on at place `at`, or ends without a find if there is no such
/// place.
pub open spec fn probe_from(places: Seq<Seq<char>>, at: int) -> (SearchState, SearchActionView) {
    if 0 <= at < places.len() {
        (Some(at as usize), SearchActionView::Probe { path: places[at] })
    } else {
        finished(places, None)
    }
}

/// The rules of a search: the places are probed in order, the first that is
/// a regular file is the find, and when none is left nothing was found.  An
/// event that does not answer a probe ends the search without a find.
pub open spec fn search_transition(
    places: Seq<Seq<char>>,
    state: SearchState,
    event: SearchEvent,
) -> (SearchState, SearchActionView) {
    match (state, event) {
        (None, SearchEvent::Begin) => probe_from(places, 0),
        (Some(at), SearchEvent::Probed { is_file }) => if at < places.len() {
            if is_file {
                finished(places, Some(places[at as int]))
            } else {
                probe_from(places, at + 1)
            }
        } else {
            finished(places, None)
        },
        _ => finished(places, None),
    }
}

/// The end of a search among `places`.
fn finish(places: &Vec<String>, found: Option<String>) -> (next: (SearchState, SearchAction))
    ensures
        (next.0, next.1@) == finished(places.deep_view(), optional_text(found)),
{
    (Some(places.len()), SearchAction::Finish { found })
}

/// Goes on probing at place `at`.
fn probe(places: &Vec<String>, at: usize) -> (next: (SearchState, SearchAction))
    ensures
        (next.0, next.1@) == probe_from(places.deep_view(), at as int),
{
    if at < places.len() {
        (Some(at), SearchAction::Probe { path: places[at].clone() })
    } else {
        finish(places, None)
    }
}

/// Takes one step of a search among `places`, as `search_transition` lays
/// down.
pub fn search_step(places: &Vec<String>, state: SearchState, event: SearchEvent) -> (next: (
    SearchState,
    SearchAction,
))
    ensures
        (next.0, next.1@) == search_transition(places.deep_view(), state, event),
{
    match state {
        None => match event {
            SearchEvent::Begin => probe(places, 0),
            _ => finish(places, None),
        },
        Some(at) => match event {
            SearchEvent::Probed { is_file } => if at < places.len() {
                if is_file {
                    finish(places, Some(places[at].clone()))
                } else {
                    probe(places, at + 1)
                }
            } else {
                finish(places, None)
            },
            _ => finish(places, None),
        },
    }
}

/// The first of `places` that is a regular file, if any is.
pub open spec fn first_file(places: Seq<Seq<char>>, is_file: spec_fn(Seq<char>) -> bool) -> Option<
    Seq<char>,
>
    decreases places.len(),
{
    if places.len() == 0 {
        None
    } else if is_file(places[0]) {
        Some(places[0])
    } else {
        first_file(places.drop_first(), is_file)
    }
}

/// The number of places that a search has not probed yet, and one more
/// before it starts.
pub open spec fn places_left(places: Seq<Seq<char>>, state: SearchState) -> nat {
    match state {
        None => places.len() + 1,
        Some(at) => if at < places.len() {
            (places.len() - at) as nat
        } else {
            0
        },
    }
}

/// What a search finds in the end when it goes on from `state` with `event`
/// and every probe is answered by `is_file`.
pub open spec fn search_outcome(
    places: Seq<Seq<char>>,
    state: SearchState,
    event: SearchEvent,
    is_file: spec_fn(Seq<char>) -> bool,
) -> Option<Seq<char>>
    decreases places_left(places, state),
    when places.len() <= usize::MAX
{
    let (next, action) = search_transition(places, state, event);
    match action {
        SearchActionView::Finish { found } => found,
        SearchActionView::Probe { path } => search_outcome(
            places,
            next,
            SearchEvent::Probed { is_file: is_file(path) },
            is_file,
        ),
    }
}

/// From place `at` on, a search finds the first regular file among the
/// places that are left.
proof fn lemma_search_from(
    places: Seq<Seq<char>>,
    at: int,
    is_file: spec_fn(Seq<char>) -> bool,
)
    requires
        places.len() <= usize::MAX,
        0 <= at < places.len(),
    ensures
        search_outcome(
            places,
            Some(at as usize),
            SearchEvent::Probed { is_file: is_file(places[at]) },
            is_file,
        ) == first_file(places.skip(at), is_file),
    decreases places.len() - at,
{
    let left = places.skip(at);
    assert(left[0] == places[at]);
    assert(left.drop_first() =~= places.skip(at + 1));
    if !is_file(places[at]) && at + 1 < places.len() {
        lemma_search_from(places, at + 1, is_file);
    }
}

/// A search finds the first place on the search path that is a regular file,
/// and nothing if no place is one.
pub proof fn lemma_search_finds_first_file(
    places: Seq<Seq<char>>,
    is_file: spec_fn(Seq<char>) -> bool,
)
    requires
        places.len() <= usize::MAX,
    ensures
        search_outcome(places, None, SearchEvent::Begin, is_file) == first_file(places, is_file),
{
    assert(places.skip(0) =~= places);
    if places.len() > 0 {
        lemma_search_from(places, 0, is_file);
    }
}

/// Where no place is a regular file, there is no first one.
pub proof fn lemma_no_file_no_find(places: Seq<Seq<char>>, is_file: spec_fn(Seq<char>) -> bool)
    requires
        forall|i: int| 0 <= i < places.len() ==> !is_file(#[trigger] places[i]),
    ensures
        first_file(places, is_file) == None::<Seq<char>>,
    decreases places.len(),
{
    if places.len() > 0 {
        let rest = places.drop_first();
        assert(forall|i: int| 0 <= i < rest.len() ==> rest[i] == places[i + 1]);
        lemma_no_file_no_find(rest, is_file);
    }
}

/// The first regular file is the one that has none before it.
pub proof fn lemma_first_file_at(
    places: Seq<Seq<char>>,
    is_file: spec_fn(Seq<char>) -> bool,
    at: int,
)
    requires
        0 <= at < places.len(),
        is_file(places[at]),
        forall|i: int| 0 <= i < at ==> !is_file(#[trigger] places[i]),
    ensures
        first_file(places, is_file) == Some(places[at]),
    decreases places.len(),
{
    if at > 0 {
        let rest = places.drop_first();
        assert(rest[at - 1] == places[at]);
        assert(forall|i: int| 0 <= i < at - 1 ==> rest[i] == places[i + 1]);
        lemma_first_file_at(rest, is_file, at - 1);
    }
}

/// On a search path none of whose directories holds `name`, a search finds
/// nothing.
pub proof fn lemma_unmatched_path_finds_nothing(
    search_path: Option<Seq<char>>,
    name: Seq<char>,
    is_file: spec_fn(Seq<char>) -> bool,
)
    requires
        candidates_of(search_path, name).len() <= usize::MAX,
        forall|i: int|
            0 <= i < candidates_of(search_path, name).len() ==> !is_file(
                #[trigger] candidates_of(search_path, name)[i],
            ),
    ensures
        search_outcome(candidates_of(search_path, name), None, SearchEvent::Begin, is_file)
            == None::<Seq<char>>,
{
    let places = candidates_of(search_path, name);
    lemma_search_finds_first_file(places, is_file);
    lemma_no_file_no_find(places, is_file);
}

/// On a search path with exactly one directory that holds `name`, a search
/// finds `name` in that directory.
pub proof fn lemma_single_match_is_found(
    search_path: Seq<char>,
    name: Seq<char>,
    is_file: spec_fn(Seq<char>) -> bool,
    at: int,
)
    requires
        split(search_path, PATH_SEPARATOR).len() <= usize::MAX,
        0 <= at < split(search_path, PATH_SEPARATOR).len(),
        is_file(joined(split(search_path, PATH_SEPARATOR)[at], name)),
        forall|i: int|
            0 <= i < split(search_path, PATH_SEPARATOR).len() && i != at ==> !is_file(
                joined(#[trigger] split(search_path, PATH_SEPARATOR)[i], name),
            ),
    ensures
        search_outcome(
            candidates_of(Some(search_path), name),
            None,
            SearchEvent::Begin,
            is_file,
        ) == Some(joined(split(search_path, PATH_SEPARATOR)[at], name)),
{
    let dirs = split(search_path, PATH_SEPARATOR);
    let places = candidates_of(Some(search_path), name);
    assert(forall|i: int| 0 <= i < places.len() ==> places[i] == joined(dirs[i], name));
    lemma_search_finds_first_file(places, is_file);
    lemma_first_file_at(places, is_file, at);
}

/// The paths that are regular files where exactly `files` are.
pub open spec fn listed(files: Seq<Seq<char>>) -> spec_fn(Seq<char>) -> bool {
    |path: Seq<char>| files.contains(path)
}

/// What a search has found or will find, given the action it asked for last.
pub open spec fn outcome_after(
    places: Seq<Seq<char>>,
    state: SearchState,
    action: SearchActionView,
    is_file: spec_fn(Seq<char>) -> bool,
) -> Option<Seq<char>> {
    match action {
        SearchActionView::Finish { found } => found,
        SearchActionView::Probe { path } => search_outcome(
            places,
            state,
            SearchEvent::Probed { is_file: is_file(path) },
            is_file,
        ),
    }
}

/// Finds `bin_name` on the search path in a file system whose regular files
/// are exactly `files`: the first place on the path that is among them.
pub fn find_exe(search_path: Option<&str>, bin_name: &str, files: &Vec<String>) -> (found: Option<
    String,
>)
    ensures
        optional_text(found) == first_file(
            candidates_of(optional_slice(search_path), bin_name@),
            listed(files.deep_view()),
        ),
{
    let places = candidates(search_path, bin_name);
    let ghost is_file = listed(files.deep_view());
    proof {
        assert(places.deep_view().len() == places.len());
        lemma_search_finds_first_file(places.deep_view(), is_file);
    }
    let (mut state, mut action) = search_step(&places, None, SearchEvent::Begin);
    loop
        invariant
            outcome_after(places.deep_view(), state, action@, is_file) == first_file(
                places.deep_view(),
                is_file,
            ),
            is_file == listed(files.deep_view()),
            places.deep_view() == candidates_of(optional_slice(search_path), bin_name@),
            action@ is Probe ==> state is Some && state->0 < places.len(),
        decreases places_left(places.deep_view(), state),
    {
        match action {
            SearchAction::Finish { found } => {
                return found;
            },
            SearchAction::Probe { path } => {
                let held = contains_text(files, path.as_str());
                let next = search_step(&places, state, SearchEvent::Probed { is_file: held });
                state = next.0;
                action = next.1;
            },
        }
    }
}

/// The failure of a search that had to succeed.
#[derive(Clone, Debug, PartialEq, Eq)]
pub struct NotFoundError {
    /// The name that was searched for.
    pub name: String,
}

/// What a search that has to succeed gives: the place that was found, or the
/// name that was not.
pub open spec fn required(bin_name: Seq<char>, found: Option<Seq<char>>) -> Result<
    Seq<char>,
    Seq<char>,
> {
    match found {
        Some(path) => Ok(path),
        None => Err(bin_name),
    }
}

/// The view of the result of a search that has to succeed.
pub open spec fn required_view(result: Result<String, NotFoundError>) -> Result<
    Seq<char>,
    Seq<char>,
> {
    match result {
        Ok(path) => Ok(path@),
        Err(error) => Err(error.name@),
    }
}

/// Insists on a find: hands on the place where `bin_name` was found, and
/// fails with the name where it was found nowhere.
pub fn exe_exists(bin_name: &str, found: Option<String>) -> (result: Result<String, NotFoundError>)
    ensures
        required_view(result) == required(bin_name@, optional_text(found)),
{
    match found {
        Some(path) => Ok(path),
        None => Err(NotFoundError { name: String::from_str(bin_name) }),
    }
}

/// Whether a search found anything.
pub fn exe_bool_exists(found: &Option<String>) -> (exists: bool)
    ensures
        exists == found is Some,
{
    match found {
        Some(_) => true,
        None => false,
    }
}

} // verus!
