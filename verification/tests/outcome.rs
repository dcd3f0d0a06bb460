use appdater::outcome::{Failure, Outcome};

fn all_failures() -> Vec<Failure> {
    vec![
        Failure::InstallMissing,
        Failure::MetadataUnreadable,
        Failure::MetadataMalformed,
        Failure::VersionMissing,
        Failure::ReleasesUnavailable,
        Failure::NoReleases,
        Failure::ProbeFailed,
        Failure::NotRedirect,
        Failure::LocationMissing,
        Failure::LocationNotText,
        Failure::LocationNotUrl,
        Failure::NoPathSegments,
        Failure::VersionSegmentMissing,
        Failure::DownloadFailed,
        Failure::DownloadRefused,
        Failure::ArchiveNotCreated,
        Failure::ChunkReadFailed,
        Failure::ChunkWriteFailed,
        Failure::ExtractorNotStarted,
        Failure::UnexpectedEvent,
    ]
}

#[test]
fn successful_outcomes_exit_with_zero() {
    assert_eq!(Outcome::UpToDate.exit_code(), 0);
    assert_eq!(Outcome::Updated.exit_code(), 0);
    assert_eq!(Outcome::ExtractionWarning.exit_code(), 0);
    assert!(Outcome::UpToDate.is_success());
    assert!(Outcome::Updated.is_success());
    assert!(Outcome::ExtractionWarning.is_success());
}

#[test]
fn a_missing_install_exits_with_zero() {
    assert!(Failure::InstallMissing.is_quiet());
    assert_eq!(Outcome::Stopped(Failure::InstallMissing).exit_code(), 0);
    assert!(!Outcome::Stopped(Failure::InstallMissing).is_success());
}

#[test]
fn only_a_missing_install_is_quiet() {
    for failure in all_failures() {
        assert_eq!(failure.is_quiet(), failure == Failure::InstallMissing);
    }
}

#[test]
fn refused_requests_exit_with_one() {
    assert_eq!(Outcome::Stopped(Failure::NotRedirect).exit_code(), 1);
    assert_eq!(Outcome::Stopped(Failure::DownloadRefused).exit_code(), 1);
}

#[test]
fn a_missing_version_exits_with_101() {
    assert!(!Failure::VersionMissing.is_quiet());
    assert_eq!(Outcome::Stopped(Failure::VersionMissing).exit_code(), 101);
}

#[test]
fn other_failures_exit_with_one() {
    let mut seen: usize = 0;
    for failure in all_failures() {
        if failure.is_quiet() || failure == Failure::VersionMissing {
            continue;
        }
        seen += 1;
        assert_eq!(Outcome::Stopped(failure).exit_code(), 1);
        assert!(!Outcome::Stopped(failure).is_success());
    }
    assert_eq!(seen, 18);
}

#[test]
fn every_failure_has_a_message_of_its_own() {
    let failures = all_failures();
    for (i, a) in failures.iter().enumerate() {
        assert!(!a.message().is_empty());
        for b in failures.iter().skip(i + 1) {
            assert_ne!(a.message(), b.message());
        }
    }
}

#[test]
fn messages_name_what_went_wrong() {
    assert_eq!(Failure::NoReleases.message(), "No GitHub releases");
    assert_eq!(Failure::LocationMissing.message(), "Location header not found");
    assert_eq!(Failure::NoPathSegments.message(), "Path segments not found");
    assert_eq!(
        Failure::VersionSegmentMissing.message(),
        "2nd element not found (expected /apps/linux/-<version_number>-)"
    );
}
