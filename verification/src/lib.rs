//! The decision logic of `upder`, a personal updater for three developer
//! tools: the Rust toolchain manager, a cross-platform UI SDK and the
//! `rust-analyzer` language server.
//!
//! The library touches neither files nor the network nor other processes.  It
//! computes what has to be done (which commands to run, which files to write,
//! which URL to fetch) and reacts to what happened; the program around it
//! carries the actions out.  The one thing it asks the machine itself is the
//! name of the operating system, to pick the release asset.
//!
//! - `plan` lays out the steps of a run, `run` takes them one event at a time.
//! - `fetch` and `progress` hold the rules of a download and what its
//!   progress indicator shows.
//! - `locate` searches the search path, `runner` settles what a command gave,
//!   `schedule` renders the units of the daily timer.
//! - `platform` and `url` choose the release asset; `paths`, `text` and
//!   `error` serve the rest.
pub mod error;
pub mod fetch;
pub mod locate;
pub mod paths;
pub mod plan;
pub mod platform;
pub mod progress;
pub mod run;
pub mod runner;
pub mod schedule;
pub mod text;
pub mod url;
