//! Keeps a locally installed desktop application current.
//!
//! A run finds out which version is installed, asks the vendor which one is
//! the latest, and where the two differ fetches the archive of the latest
//! and has it unpacked over the installation.
//!
//! The crate decides; the caller acts. [`Updater`] is a state machine that
//! turns each [`Event`] reported by the caller into the next [`Action`] to
//! perform, until it hands out [`Action::Finish`]. It never touches the
//! network, the disk or another process itself.
//!
//! * [`target`]: the applications, their paths and addresses.
//! * [`json`]: the installed version, read out of a metadata document.
//! * [`release`]: the release index and its latest entry.
//! * [`http`]: status classes and header values.
//! * [`location`]: the redirection target and the version in its path.
//! * [`outcome`]: how a run can end.
//! * [`machine`]: the model of a run, as a transition function.
//! * [`updater`]: the executable machine, proved to follow the model.
//! * [`laws`]: what holds of every run.

pub mod http;
pub mod json;
pub mod laws;
pub mod location;
pub mod machine;
pub mod outcome;
pub mod release;
pub mod target;
pub mod updater;

pub use machine::Phase;
pub use outcome::{Failure, Outcome};
pub use release::{Author, GitHubRelease, GitHubReleases, Reactions};
pub use target::AppSelection;
pub use updater::{Action, Event, Updater};
