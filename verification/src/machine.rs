//! The mathematical model of a run: states, events, actions, and the
//! transition function that the executable [`crate::updater::Updater`]
//! implements.

use crate::http::{header_reading, redirection, successful};
use crate::json::recorded_version;
use crate::location::{target_address, target_version};
use crate::outcome::{Failure, Outcome};
use crate::release::newest;
use crate::target::AppSelection;
use vstd::prelude::*;

verus! {

/// What the run is waiting for.
#[derive(Clone, Copy, Debug, PartialEq, Eq, Structural)]
pub enum Phase {
    /// Waiting to learn whether the application is installed.
    CheckingInstall,
    /// Waiting for the text of the metadata file.
    ReadingMetadata,
    /// Waiting for the list of published releases.
    FetchingReleases,
    /// Waiting for the answer of the version-discovery endpoint.
    Probing,
    /// Waiting for the head of the answer to the request for the archive.
    OpeningDownload,
    /// Waiting for the temporary archive file to be created.
    CreatingArchive,
    /// Waiting for the next chunk of the archive.
    ReadingChunk,
    /// Waiting for the chunk in hand to be written.
    WritingChunk,
    /// Waiting for the extraction tool to end.
    Extracting,
    /// The run is over.
    Finished(Outcome),
}

/// An event, reduced to what the run decides on.
pub enum EventView {
    InstallChecked { exists: bool },
    MetadataRead { text: Seq<char> },
    ReleasesFetched { tags: Seq<Seq<char>> },
    Probed { status: u16, location: Option<Seq<u8>> },
    DownloadOpened { status: u16 },
    ArchiveCreated,
    ChunkRead,
    BodyEnded,
    ChunkWritten,
    Extracted { success: bool },
    Failed,
}

/// An action, with its texts as sequences of characters.
pub enum ActionView {
    CheckInstall { path: Seq<char> },
    ReadMetadata { path: Seq<char> },
    FetchReleases { url: Seq<char> },
    Probe { url: Seq<char> },
    OpenDownload { url: Seq<char> },
    CreateArchive { path: Seq<char> },
    ReadChunk,
    WriteChunk,
    Extract { archive: Seq<char>, destination: Seq<char> },
    Finish { outcome: Outcome },
}

/// The state of a run.
pub struct Model {
    /// The application that is being checked.
    pub app: AppSelection,
    /// The directory under which applications are installed.
    pub download_dir: Seq<char>,
    /// What the run is waiting for.
    pub phase: Phase,
    /// The installed version, once it is known.
    pub local: Option<Seq<char>>,
    /// The latest published version, once it is known.
    pub remote: Option<Seq<char>>,
}

impl Model {
    /// The state is one that a run can be in: the latest version is unknown
    /// until the installed one is; the installed version is known once the
    /// latest one is looked for; a run that goes on to the redirection with
    /// the latest version in hand has found it to differ from the installed
    /// one; and both are known once the archive is requested.
    pub open spec fn wf(self) -> bool {
        match self.phase {
            Phase::CheckingInstall | Phase::ReadingMetadata => self.remote is None,
            Phase::FetchingReleases => self.local is Some,
            Phase::Probing => self.local is Some && (self.remote is Some ==> self.remote
                != self.local),
            Phase::Finished(_) => true,
            _ => self.local is Some && self.remote is Some,
        }
    }

    /// The outcome of the run, once it is over.
    pub open spec fn outcome(self) -> Option<Outcome> {
        match self.phase {
            Phase::Finished(outcome) => Some(outcome),
            _ => None,
        }
    }

    /// The run ends here with the given outcome.
    pub open spec fn finish(self, outcome: Outcome) -> (Model, ActionView) {
        (Model { phase: Phase::Finished(outcome), ..self }, ActionView::Finish { outcome })
    }

    /// The run stops early here.
    pub open spec fn stop(self, failure: Failure) -> (Model, ActionView) {
        self.finish(Outcome::Stopped(failure))
    }

    /// The run goes on to discover the latest version by a redirection.
    pub open spec fn probe(self) -> (Model, ActionView) {
        (
            Model { phase: Phase::Probing, ..self },
            ActionView::Probe { url: self.app.probe_url_text() },
        )
    }

    /// The run goes on to fetch the archive from an address.
    pub open spec fn download(self, url: Seq<char>) -> (Model, ActionView) {
        (Model { phase: Phase::OpeningDownload, ..self }, ActionView::OpenDownload { url })
    }

    /// The extraction that follows the download of the latest version.
    pub open spec fn extraction(self) -> ActionView {
        ActionView::Extract {
            archive: self.app.archive_path_text(self.remote.unwrap()),
            destination: self.app.extract_dir_text(self.download_dir),
        }
    }

    /// The failure that a reported `Failed` means in each phase.
    pub open spec fn failure(self) -> Failure {
        match self.phase {
            Phase::ReadingMetadata => Failure::MetadataUnreadable,
            Phase::FetchingReleases => Failure::ReleasesUnavailable,
            Phase::Probing => Failure::ProbeFailed,
            Phase::OpeningDownload => Failure::DownloadFailed,
            Phase::CreatingArchive => Failure::ArchiveNotCreated,
            Phase::ReadingChunk => Failure::ChunkReadFailed,
            Phase::WritingChunk => Failure::ChunkWriteFailed,
            Phase::Extracting => Failure::ExtractorNotStarted,
            _ => Failure::UnexpectedEvent,
        }
    }

    /// The step after the metadata text arrived: the installed version is
    /// recorded, and the latest one is looked for.
    pub open spec fn on_metadata(self, text: Seq<char>) -> (Model, ActionView) {
        match recorded_version(text) {
            Err(failure) => self.stop(failure),
            Ok(version) => {
                let known = Model { local: Some(version), ..self };
                match self.app.releases_url_text() {
                    Some(url) => (
                        Model { phase: Phase::FetchingReleases, ..known },
                        ActionView::FetchReleases { url },
                    ),
                    None => known.probe(),
                }
            },
        }
    }

    /// The step after the release index arrived: its first tag is the latest
    /// version. Where it is the installed version, the run ends there as up
    /// to date, before anything is asked of the version-discovery endpoint;
    /// otherwise the run goes on to that endpoint for the address of the
    /// archive.
    pub open spec fn on_releases(self, tags: Seq<Seq<char>>) -> (Model, ActionView) {
        match newest(tags) {
            Err(failure) => self.stop(failure),
            Ok(tag) => {
                let known = Model { remote: Some(tag), ..self };
                if self.local == Some(tag) {
                    known.finish(Outcome::UpToDate)
                } else {
                    known.probe()
                }
            },
        }
    }

    /// The step after a redirection with a `Location` header arrived.
    ///
    /// The header must read as text and hold an absolute URL. Where the
    /// latest version is known from the release index, that URL is the
    /// address of the archive. Otherwise the path of the URL must spell the
    /// latest version: where it is the installed one, the run ends as up to
    /// date, and only where the two differ does the run go on to fetch the
    /// archive.
    pub open spec fn on_location(self, bytes: Seq<u8>) -> (Model, ActionView) {
        match header_reading(bytes) {
            None => self.stop(Failure::LocationNotText),
            Some(text) => match self.remote {
                Some(_) => match target_address(text) {
                    Err(failure) => self.stop(failure),
                    Ok(url) => self.download(url),
                },
                None => match target_version(text) {
                    Err(failure) => self.stop(failure),
                    Ok(version) => {
                        let known = Model { remote: Some(version), ..self };
                        if self.local == Some(version) {
                            known.finish(Outcome::UpToDate)
                        } else {
                            known.download(target_address(text).unwrap())
                        }
                    },
                },
            },
        }
    }

    /// The step after the version-discovery endpoint answered: the answer
    /// must be a redirection, and it must carry a `Location` header.
    pub open spec fn on_probe(self, status: u16, location: Option<Seq<u8>>) -> (
        Model,
        ActionView,
    ) {
        if !redirection(status) {
            self.stop(Failure::NotRedirect)
        } else {
            match location {
                None => self.stop(Failure::LocationMissing),
                Some(bytes) => self.on_location(bytes),
            }
        }
    }

    /// The first state of a run and the action that opens it.
    pub open spec fn start(app: AppSelection, download_dir: Seq<char>) -> (Model, ActionView) {
        (
            Model { app, download_dir, phase: Phase::CheckingInstall, local: None, remote: None },
            ActionView::CheckInstall { path: app.install_dir_text(download_dir) },
        )
    }

    /// The state after an event, and the action to perform next.
    ///
    /// A finished run stays finished. `Failed` stops the run with the failure
    /// of the phase. An event that does not answer the pending action stops
    /// the run with `UnexpectedEvent`.
    pub open spec fn step(self, event: EventView) -> (Model, ActionView) {
        match (self.phase, event) {
            (Phase::Finished(outcome), _) => (self, ActionView::Finish { outcome }),
            (_, EventView::Failed) => self.stop(self.failure()),
            (Phase::CheckingInstall, EventView::InstallChecked { exists }) => if exists {
                (
                    Model { phase: Phase::ReadingMetadata, ..self },
                    ActionView::ReadMetadata {
                        path: self.app.metadata_path_text(self.download_dir),
                    },
                )
            } else {
                self.stop(Failure::InstallMissing)
            },
            (Phase::ReadingMetadata, EventView::MetadataRead { text }) => self.on_metadata(text),
            (Phase::FetchingReleases, EventView::ReleasesFetched { tags }) => self.on_releases(
                tags,
            ),
            (Phase::Probing, EventView::Probed { status, location }) => self.on_probe(
                status,
                location,
            ),
            (Phase::OpeningDownload, EventView::DownloadOpened { status }) => if successful(
                status,
            ) {
                (
                    Model { phase: Phase::CreatingArchive, ..self },
                    ActionView::CreateArchive {
                        path: self.app.archive_path_text(self.remote.unwrap()),
                    },
                )
            } else {
                self.stop(Failure::DownloadRefused)
            },
            (Phase::CreatingArchive, EventView::ArchiveCreated) => (
                Model { phase: Phase::ReadingChunk, ..self },
                ActionView::ReadChunk,
            ),
            (Phase::ReadingChunk, EventView::ChunkRead) => (
                Model { phase: Phase::WritingChunk, ..self },
                ActionView::WriteChunk,
            ),
            (Phase::ReadingChunk, EventView::BodyEnded) => (
                Model { phase: Phase::Extracting, ..self },
                self.extraction(),
            ),
            (Phase::WritingChunk, EventView::ChunkWritten) => (
                Model { phase: Phase::ReadingChunk, ..self },
                ActionView::ReadChunk,
            ),
            (Phase::Extracting, EventView::Extracted { success }) => self.finish(
                if success {
                    Outcome::Updated
                } else {
                    Outcome::ExtractionWarning
                },
            ),
            _ => self.stop(Failure::UnexpectedEvent),
        }
    }
}

/// The state after a sequence of events, and every action asked for so far,
/// the opening action first.
pub open spec fn run(app: AppSelection, download_dir: Seq<char>, events: Seq<EventView>) -> (
    Model,
    Seq<ActionView>,
)
    decreases events.len(),
{
    if events.len() == 0 {
        let (first, action) = Model::start(app, download_dir);
        (first, seq![action])
    } else {
        let (before, actions) = run(app, download_dir, events.drop_last());
        let (after, action) = before.step(events.last());
        (after, actions.push(action))
    }
}

} // verus!
