//! The run itself: a state machine that is fed events and answers with
//! actions.
//!
//! The caller performs each [`Action`] and reports what came of it as an
//! [`Event`]; [`Updater::step`] decides what to do next. The machine never
//! touches the network, the disk or another process itself.

use crate::http::{header_text, is_redirection, is_success};
use crate::json::local_version;
use crate::location::Location;
use crate::machine::{run, ActionView, EventView, Model, Phase};
use crate::outcome::{Failure, Outcome};
use crate::release::{latest_tag, tags, GitHubRelease};
use crate::target::AppSelection;
use vstd::prelude::*;

verus! {

/// What came of the action that the machine asked for last.
#[derive(Debug, Clone, PartialEq)]
pub enum Event {
    /// The installation directory was looked for.
    InstallChecked { exists: bool },
    /// The metadata file was read; `text` is its content.
    MetadataRead { text: String },
    /// The release index was fetched and decoded.
    ReleasesFetched { releases: Vec<GitHubRelease> },
    /// The version-discovery endpoint answered with a status code and,
    /// possibly, a `Location` header.
    Probed { status: u16, location: Option<Vec<u8>> },
    /// The request for the archive was answered with a status code.
    DownloadOpened { status: u16 },
    /// The temporary archive file was created.
    ArchiveCreated,
    /// A chunk of the archive arrived.
    ChunkRead,
    /// The archive has no more chunks.
    BodyEnded,
    /// The chunk in hand was written to the archive file.
    ChunkWritten,
    /// The extraction tool ran and ended, with or without success.
    Extracted { success: bool },
    /// The action could not be performed.
    Failed,
}

/// What the caller is to do next.
#[derive(Debug, Clone, PartialEq)]
pub enum Action {
    /// Find out whether the directory `path` exists.
    CheckInstall { path: String },
    /// Read the file `path` as text.
    ReadMetadata { path: String },
    /// Fetch the release index at `url` and decode it.
    FetchReleases { url: String },
    /// Request `url` without following redirections.
    Probe { url: String },
    /// Request the archive at `url`.
    OpenDownload { url: String },
    /// Create the file `path` to receive the archive.
    CreateArchive { path: String },
    /// Wait for the next chunk of the archive.
    ReadChunk,
    /// Write the chunk in hand to the archive file.
    WriteChunk,
    /// Unpack `archive` into the directory `destination`.
    Extract { archive: String, destination: String },
    /// Stop: the run is over.
    Finish { outcome: Outcome },
}

impl View for Event {
    type V = EventView;

    open spec fn view(&self) -> EventView {
        match *self {
            Event::InstallChecked { exists } => EventView::InstallChecked { exists },
            Event::MetadataRead { text } => EventView::MetadataRead { text: text@ },
            Event::ReleasesFetched { releases } => EventView::ReleasesFetched {
                tags: tags(releases@),
            },
            Event::Probed { status, location } => EventView::Probed {
                status,
                location: match location {
                    Some(bytes) => Some(bytes@),
                    None => None,
                },
            },
            Event::DownloadOpened { status } => EventView::DownloadOpened { status },
            Event::ArchiveCreated => EventView::ArchiveCreated,
            Event::ChunkRead => EventView::ChunkRead,
            Event::BodyEnded => EventView::BodyEnded,
            Event::ChunkWritten => EventView::ChunkWritten,
            Event::Extracted { success } => EventView::Extracted { success },
            Event::Failed => EventView::Failed,
        }
    }
}

impl View for Action {
    type V = ActionView;

    open spec fn view(&self) -> ActionView {
        match *self {
            Action::CheckInstall { path } => ActionView::CheckInstall { path: path@ },
            Action::ReadMetadata { path } => ActionView::ReadMetadata { path: path@ },
            Action::FetchReleases { url } => ActionView::FetchReleases { url: url@ },
            Action::Probe { url } => ActionView::Probe { url: url@ },
            Action::OpenDownload { url } => ActionView::OpenDownload { url: url@ },
            Action::CreateArchive { path } => ActionView::CreateArchive { path: path@ },
            Action::ReadChunk => ActionView::ReadChunk,
            Action::WriteChunk => ActionView::WriteChunk,
            Action::Extract { archive, destination } => ActionView::Extract {
                archive: archive@,
                destination: destination@,
            },
            Action::Finish { outcome } => ActionView::Finish { outcome },
        }
    }
}

/// The events of a list, each reduced to what the run decides on.
pub open spec fn event_views(events: Seq<Event>) -> Seq<EventView> {
    Seq::new(events.len(), |i: int| events[i]@)
}

/// The actions of a list, each with its texts as sequences of characters.
pub open spec fn action_views(actions: Seq<Action>) -> Seq<ActionView> {
    Seq::new(actions.len(), |i: int| actions[i]@)
}

/// A run in progress.
pub struct Updater {
    app: AppSelection,
    download_dir: String,
    phase: Phase,
    local: Option<String>,
    remote: Option<String>,
}

impl View for Updater {
    type V = Model;

    closed spec fn view(&self) -> Model {
        Model {
            app: self.app,
            download_dir: self.download_dir@,
            phase: self.phase,
            local: crate::outcome::text_option(self.local),
            remote: crate::outcome::text_option(self.remote),
        }
    }
}

impl Updater {
    /// Every run in progress is in a state that a run can be in.
    #[verifier::type_invariant]
    spec fn well_formed(self) -> bool {
        self@.wf()
    }

    /// Opens a run for an application installed under `download_dir`, and
    /// says what to do first.
    pub fn begin(app: AppSelection, download_dir: String) -> (r: (Updater, Action))
        ensures
            (r.0@, r.1@) == Model::start(app, download_dir@),
            r.0@.wf(),
    {
        let path = app.install_dir(download_dir.as_str());
        (
            Updater { app, download_dir, phase: Phase::CheckingInstall, local: None, remote: None },
            Action::CheckInstall { path },
        )
    }

    fn finish(&mut self, outcome: Outcome) -> (action: Action)
        ensures
            (final(self)@, action@) == old(self)@.finish(outcome),
    {
        self.phase = Phase::Finished(outcome);
        Action::Finish { outcome }
    }

    fn stop(&mut self, failure: Failure) -> (action: Action)
        ensures
            (final(self)@, action@) == old(self)@.stop(failure),
    {
        self.finish(Outcome::Stopped(failure))
    }

    fn probe(&mut self) -> (action: Action)
        requires
            old(self)@.local is Some,
            old(self)@.remote is Some ==> old(self)@.remote != old(self)@.local,
        ensures
            (final(self)@, action@) == old(self)@.probe(),
    {
        self.phase = Phase::Probing;
        Action::Probe { url: self.app.probe_url() }
    }

    fn download(&mut self, url: String) -> (action: Action)
        requires
            old(self)@.local is Some,
            old(self)@.remote is Some,
        ensures
            (final(self)@, action@) == old(self)@.download(url@),
    {
        self.phase = Phase::OpeningDownload;
        Action::OpenDownload { url }
    }

    fn failure(&self) -> (r: Failure)
        ensures
            r == self@.failure(),
    {
        match self.phase {
            Phase::ReadingMetadata => Failure::MetadataUnreadable,
            Phase::FetchingReleases => Failure::ReleasesUnavailable,
            Phase::Probing => Failure::ProbeFailed,
            Phase::OpeningDownload => Failure::DownloadFailed,
            Phase::CreatingArchive => Failure::ArchiveNotCreated,
            Phase::ReadingChunk => Failure::ChunkReadFailed,
            Phase::WritingChunk => Failure::ChunkWriteFailed,
            Phase::Extracting => Failure::ExtractorNotStarted,
            _ => Failure::UnexpectedEvent,
        }
    }

    fn on_metadata(&mut self, text: &str) -> (action: Action)
        requires
            old(self)@.phase == Phase::ReadingMetadata,
        ensures
            (final(self)@, action@) == old(self)@.on_metadata(text@),
    {
        proof {
            use_type_invariant(&*self);
        }
        match local_version(text) {
            Err(failure) => self.stop(failure),
            Ok(version) => {
                self.local = Some(version);
                match self.app.releases_url() {
                    Some(url) => {
                        self.phase = Phase::FetchingReleases;
                        Action::FetchReleases { url }
                    },
                    None => self.probe(),
                }
            },
        }
    }

    fn on_releases(&mut self, releases: &Vec<GitHubRelease>) -> (action: Action)
        requires
            old(self)@.phase == Phase::FetchingReleases,
        ensures
            (final(self)@, action@) == old(self)@.on_releases(tags(releases@)),
    {
        proof {
            use_type_invariant(&*self);
        }
        match latest_tag(releases) {
            Err(failure) => self.stop(failure),
            Ok(tag) => {
                let same = self.is_local(&tag);
                self.remote = Some(tag);
                if same {
                    self.finish(Outcome::UpToDate)
                } else {
                    self.probe()
                }
            },
        }
    }

    fn is_local(&self, version: &String) -> (r: bool)
        ensures
            r == (self@.local == Some(version@)),
    {
        match &self.local {
            Some(local) => *local == *version,
            None => false,
        }
    }

    fn on_location(&mut self, bytes: &[u8]) -> (action: Action)
        requires
            old(self)@.phase == Phase::Probing,
        ensures
            (final(self)@, action@) == old(self)@.on_location(bytes@),
    {
        proof {
            use_type_invariant(&*self);
        }
        let text = match header_text(bytes) {
            None => {
                return self.stop(Failure::LocationNotText);
            },
            Some(text) => text,
        };
        let location = match Location::parse(text.as_str()) {
            Err(failure) => {
                return self.stop(failure);
            },
            Ok(location) => location,
        };
        if self.remote.is_some() {
            return self.download(location.address());
        }
        match location.version() {
            Err(failure) => self.stop(failure),
            Ok(version) => {
                let same = self.is_local(&version);
                if same {
                    self.phase = Phase::Finished(Outcome::UpToDate);
                    self.remote = Some(version);
                    Action::Finish { outcome: Outcome::UpToDate }
                } else {
                    self.remote = Some(version);
                    self.download(location.address())
                }
            },
        }
    }

    fn on_probe(&mut self, status: u16, location: &Option<Vec<u8>>) -> (action: Action)
        requires
            old(self)@.phase == Phase::Probing,
        ensures
            (final(self)@, action@) == old(self)@.on_probe(
                status,
                match *location {
                    Some(bytes) => Some(bytes@),
                    None => None,
                },
            ),
    {
        if !is_redirection(status) {
            self.stop(Failure::NotRedirect)
        } else {
            match location {
                None => self.stop(Failure::LocationMissing),
                Some(bytes) => self.on_location(bytes.as_slice()),
            }
        }
    }

    /// Takes in what came of the last action and says what to do next.
    ///
    /// The new state and the action are those of the model's transition
    /// function, applied to the old state and the event.
    pub fn step(&mut self, event: &Event) -> (action: Action)
        ensures
            (final(self)@, action@) == old(self)@.step(event@),
            final(self)@.wf(),
    {
        proof {
            use_type_invariant(&*self);
        }
        match (self.phase, event) {
            (Phase::Finished(outcome), _) => Action::Finish { outcome },
            (_, Event::Failed) => {
                let failure = self.failure();
                self.stop(failure)
            },
            (Phase::CheckingInstall, Event::InstallChecked { exists }) => {
                if *exists {
                    self.phase = Phase::ReadingMetadata;
                    Action::ReadMetadata {
                        path: self.app.metadata_path(self.download_dir.as_str()),
                    }
                } else {
                    self.stop(Failure::InstallMissing)
                }
            },
            (Phase::ReadingMetadata, Event::MetadataRead { text }) => self.on_metadata(
                text.as_str(),
            ),
            (Phase::FetchingReleases, Event::ReleasesFetched { releases }) => self.on_releases(
                releases,
            ),
            (Phase::Probing, Event::Probed { status, location }) => self.on_probe(
                *status,
                location,
            ),
            (Phase::OpeningDownload, Event::DownloadOpened { status }) => {
                if is_success(*status) {
                    self.phase = Phase::CreatingArchive;
                    Action::CreateArchive { path: self.archive_path() }
                } else {
                    self.stop(Failure::DownloadRefused)
                }
            },
            (Phase::CreatingArchive, Event::ArchiveCreated) => {
                self.phase = Phase::ReadingChunk;
                Action::ReadChunk
            },
            (Phase::ReadingChunk, Event::ChunkRead) => {
                self.phase = Phase::WritingChunk;
                Action::WriteChunk
            },
            (Phase::ReadingChunk, Event::BodyEnded) => {
                let archive = self.archive_path();
                let destination = self.app.extract_dir(self.download_dir.as_str());
                self.phase = Phase::Extracting;
                Action::Extract { archive, destination }
            },
            (Phase::WritingChunk, Event::ChunkWritten) => {
                self.phase = Phase::ReadingChunk;
                Action::ReadChunk
            },
            (Phase::Extracting, Event::Extracted { success }) => {
                if *success {
                    self.finish(Outcome::Updated)
                } else {
                    self.finish(Outcome::ExtractionWarning)
                }
            },
            _ => self.stop(Failure::UnexpectedEvent),
        }
    }

    /// Runs the machine over a list of events, as if each had been reported
    /// in turn, and gives the state it ends in with every action it asked
    /// for, the opening action first.
    pub fn replay(app: AppSelection, download_dir: String, events: &[Event]) -> (r: (
        Updater,
        Vec<Action>,
    ))
        ensures
            (r.0@, action_views(r.1@)) == run(app, download_dir@, event_views(events@)),
            r.0@.wf(),
    {
        let (mut updater, first) = Updater::begin(app, download_dir);
        let mut actions: Vec<Action> = Vec::new();
        actions.push(first);
        proof {
            assert(event_views(events@.take(0)) =~= Seq::<EventView>::empty());
            assert(action_views(actions@) =~= seq![first@]);
        }
        let mut i: usize = 0;
        while i < events.len()
            invariant
                i <= events.len(),
                updater@.wf(),
                (updater@, action_views(actions@)) == run(
                    app,
                    download_dir@,
                    event_views(events@.take(i as int)),
                ),
            decreases events.len() - i,
        {
            let ghost before = action_views(actions@);
            let action = updater.step(&events[i]);
            actions.push(action);
            proof {
                let seen = event_views(events@.take(i + 1));
                assert(seen.drop_last() =~= event_views(events@.take(i as int)));
                assert(seen.last() == events@[i as int]@);
                assert(action_views(actions@) =~= before.push(action@));
            }
            i += 1;
        }
        proof {
            assert(events@.take(i as int) =~= events@);
        }
        (updater, actions)
    }

    fn archive_path(&self) -> (r: String)
        requires
            self@.remote is Some,
        ensures
            r@ == self@.app.archive_path_text(self@.remote.unwrap()),
    {
        match &self.remote {
            Some(remote) => self.app.archive_path(remote.as_str()),
            None => String::new(),
        }
    }

    /// The application that is being checked.
    pub fn app(&self) -> (r: AppSelection)
        ensures
            r == self@.app,
    {
        self.app
    }

    /// The directory under which applications are installed.
    pub fn download_dir(&self) -> (r: &str)
        ensures
            r@ == self@.download_dir,
    {
        self.download_dir.as_str()
    }

    /// What the run is waiting for.
    pub fn phase(&self) -> (r: Phase)
        ensures
            r == self@.phase,
    {
        self.phase
    }

    /// The installed version, once it is known.
    pub fn local_version(&self) -> (r: Option<&str>)
        ensures
            r is Some == self@.local is Some,
            r matches Some(version) ==> self@.local == Some(version@),
    {
        match &self.local {
            Some(version) => Some(version.as_str()),
            None => None,
        }
    }

    /// The latest published version, once it is known.
    pub fn remote_version(&self) -> (r: Option<&str>)
        ensures
            r is Some == self@.remote is Some,
            r matches Some(version) ==> self@.remote == Some(version@),
    {
        match &self.remote {
            Some(version) => Some(version.as_str()),
            None => None,
        }
    }

    /// The outcome of the run, once it is over.
    pub fn outcome(&self) -> (r: Option<Outcome>)
        ensures
            r == self@.outcome(),
    {
        match self.phase {
            Phase::Finished(outcome) => Some(outcome),
            _ => None,
        }
    }

    /// Tells whether the run is over.
    pub fn is_finished(&self) -> (r: bool)
        ensures
            r == self@.phase is Finished,
    {
        match self.phase {
            Phase::Finished(_) => true,
            _ => false,
        }
    }
}

} // verus!
