//! How a run ends.

use vstd::prelude::*;

verus! {

/// Why a run stopped before the installed application was brought up to date.
#[derive(Clone, Copy, Debug, PartialEq, Eq, Structural)]
pub enum Failure {
    /// The application is not installed under the download directory.
    InstallMissing,
    /// The metadata file of the installed application could not be read.
    MetadataUnreadable,
    /// The metadata file does not hold a JSON document.
    MetadataMalformed,
    /// The metadata document has no string member `version`.
    VersionMissing,
    /// The list of published releases could not be fetched or decoded.
    ReleasesUnavailable,
    /// The list of published releases is empty.
    NoReleases,
    /// The request that discovers the latest version could not be sent.
    ProbeFailed,
    /// The version-discovery endpoint answered with something other than a redirection.
    NotRedirect,
    /// The redirection carries no `Location` header.
    LocationMissing,
    /// The `Location` header holds bytes outside visible ASCII.
    LocationNotText,
    /// The `Location` header does not hold an absolute URL.
    LocationNotUrl,
    /// The redirection target is a URL without path segments.
    NoPathSegments,
    /// The path of the redirection target is too short to hold a version.
    VersionSegmentMissing,
    /// The request for the archive could not be sent.
    DownloadFailed,
    /// The server refused to deliver the archive.
    DownloadRefused,
    /// The temporary archive file could not be created.
    ArchiveNotCreated,
    /// A chunk of the archive could not be received.
    ChunkReadFailed,
    /// A chunk of the archive could not be written to the temporary file.
    ChunkWriteFailed,
    /// The extraction tool could not be started.
    ExtractorNotStarted,
    /// The caller reported an event that does not answer the pending action.
    UnexpectedEvent,
}

/// The result of a finished run.
#[derive(Clone, Copy, Debug, PartialEq, Eq, Structural)]
pub enum Outcome {
    /// The installed version is the latest one; nothing was downloaded.
    UpToDate,
    /// The latest version was downloaded and extracted.
    Updated,
    /// The latest version was downloaded, but the extraction tool reported a failure.
    ExtractionWarning,
    /// The run stopped early.
    Stopped(Failure),
}

impl Failure {
    /// The failure that ends the process quietly: where the application is
    /// not installed there is nothing to keep current, so a message is
    /// printed and the process exits with status 0.
    pub open spec fn quiet(self) -> bool {
        self == Failure::InstallMissing
    }

    /// Tells whether the process exits with status 0 in spite of this failure.
    pub fn is_quiet(&self) -> (r: bool)
        ensures
            r == self.quiet(),
    {
        match self {
            Failure::InstallMissing => true,
            _ => false,
        }
    }

    /// The diagnostic that goes with this failure.
    pub open spec fn message_text(self) -> Seq<char> {
        match self {
            Failure::InstallMissing => "the application is not installed under the download directory"@,
            Failure::MetadataUnreadable => "the metadata file of the installed application could not be read"@,
            Failure::MetadataMalformed => "the metadata file does not hold a JSON document"@,
            Failure::VersionMissing => "the metadata file records no version"@,
            Failure::ReleasesUnavailable => "the list of releases could not be fetched"@,
            Failure::NoReleases => "No GitHub releases"@,
            Failure::ProbeFailed => "the request for the latest version could not be sent"@,
            Failure::NotRedirect => "the request for the latest version was not answered with a redirection"@,
            Failure::LocationMissing => "Location header not found"@,
            Failure::LocationNotText => "the Location header is not visible ASCII"@,
            Failure::LocationNotUrl => "the Location header is not an absolute URL"@,
            Failure::NoPathSegments => "Path segments not found"@,
            Failure::VersionSegmentMissing => "2nd element not found (expected /apps/linux/-<version_number>-)"@,
            Failure::DownloadFailed => "the request for the archive could not be sent"@,
            Failure::DownloadRefused => "the request for the archive was refused"@,
            Failure::ArchiveNotCreated => "the temporary archive file could not be created"@,
            Failure::ChunkReadFailed => "a chunk of the archive could not be received"@,
            Failure::ChunkWriteFailed => "a chunk of the archive could not be written"@,
            Failure::ExtractorNotStarted => "the extraction tool could not be started"@,
            Failure::UnexpectedEvent => "an event was reported that does not answer the pending action"@,
        }
    }

    /// The diagnostic to print when a run stops with this failure.
    pub fn message(&self) -> (r: &'static str)
        ensures
            r@ == self.message_text(),
    {
        match self {
            Failure::InstallMissing => "the application is not installed under the download directory",
            Failure::MetadataUnreadable => "the metadata file of the installed application could not be read",
            Failure::MetadataMalformed => "the metadata file does not hold a JSON document",
            Failure::VersionMissing => "the metadata file records no version",
            Failure::ReleasesUnavailable => "the list of releases could not be fetched",
            Failure::NoReleases => "No GitHub releases",
            Failure::ProbeFailed => "the request for the latest version could not be sent",
            Failure::NotRedirect => "the request for the latest version was not answered with a redirection",
            Failure::LocationMissing => "Location header not found",
            Failure::LocationNotText => "the Location header is not visible ASCII",
            Failure::LocationNotUrl => "the Location header is not an absolute URL",
            Failure::NoPathSegments => "Path segments not found",
            Failure::VersionSegmentMissing => "2nd element not found (expected /apps/linux/-<version_number>-)",
            Failure::DownloadFailed => "the request for the archive could not be sent",
            Failure::DownloadRefused => "the request for the archive was refused",
            Failure::ArchiveNotCreated => "the temporary archive file could not be created",
            Failure::ChunkReadFailed => "a chunk of the archive could not be received",
            Failure::ChunkWriteFailed => "a chunk of the archive could not be written",
            Failure::ExtractorNotStarted => "the extraction tool could not be started",
            Failure::UnexpectedEvent => "an event was reported that does not answer the pending action",
        }
    }
}

impl Outcome {
    /// The exit status of a process that ends with this outcome.
    pub open spec fn status(self) -> int {
        match self {
            Outcome::Stopped(f) => if f.quiet() {
                0
            } else if f == Failure::VersionMissing {
                101
            } else {
                1
            },
            _ => 0,
        }
    }

    /// The run did what it was started for: the application is current, or
    /// was made so.
    pub open spec fn success(self) -> bool {
        !(self is Stopped)
    }

    /// The exit status of a process that ends with this outcome: 0 after a
    /// successful run and where the application is not installed, 101 where
    /// the metadata lacks a version, 1 after any other failure.
    pub fn exit_code(&self) -> (r: i32)
        ensures
            r == self.status(),
    {
        match self {
            Outcome::Stopped(f) => {
                if f.is_quiet() {
                    0
                } else {
                    match f {
                        Failure::VersionMissing => 101,
                        _ => 1,
                    }
                }
            },
            _ => 0,
        }
    }

    /// Tells whether the run did what it was started for.
    pub fn is_success(&self) -> (r: bool)
        ensures
            r == self.success(),
    {
        match self {
            Outcome::Stopped(_) => false,
            _ => true,
        }
    }
}

/// A result that holds a string, seen as a result that holds its characters.
pub open spec fn text_result(r: Result<String, Failure>) -> Result<Seq<char>, Failure> {
    match r {
        Ok(text) => Ok(text@),
        Err(failure) => Err(failure),
    }
}

/// An optional string, seen as its characters.
pub open spec fn text_option(o: Option<String>) -> Option<Seq<char>> {
    match o {
        Some(text) => Some(text@),
        None => None,
    }
}

} // verus!
