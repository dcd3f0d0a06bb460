//! What holds of every run, whatever the caller reports.
//!
//! A run is the start of the machine followed by one step for each event of
//! a sequence. The laws below speak of the state that a run ends in and of
//! the actions it asked for on the way.

use crate::http::{header_reading, redirection, successful};
use crate::location::{target_address, target_version};
use crate::machine::{run, ActionView, EventView, Model, Phase};
use crate::outcome::{Failure, Outcome};
use crate::target::AppSelection;
use vstd::prelude::*;

verus! {

/// An action that fetches, stores or unpacks an archive.
pub open spec fn touches_archive(action: ActionView) -> bool {
    action is OpenDownload || action is CreateArchive || action is ReadChunk
        || action is WriteChunk || action is Extract
}

/// No action of the sequence fetches, stores or unpacks an archive.
pub open spec fn untouched(actions: Seq<ActionView>) -> bool {
    forall|i: int| 0 <= i < actions.len() ==> !touches_archive(#[trigger] actions[i])
}

/// How many times the sequence asks to request an archive.
pub open spec fn downloads(actions: Seq<ActionView>) -> nat
    decreases actions.len(),
{
    if actions.len() == 0 {
        0
    } else {
        downloads(actions.drop_last()) + if actions.last() is OpenDownload {
            1nat
        } else {
            0nat
        }
    }
}

/// How many times the sequence asks to unpack an archive.
pub open spec fn extractions(actions: Seq<ActionView>) -> nat
    decreases actions.len(),
{
    if actions.len() == 0 {
        0
    } else {
        extractions(actions.drop_last()) + if actions.last() is Extract {
            1nat
        } else {
            0nat
        }
    }
}

/// Failures that can only arise before the archive is requested.
pub open spec fn before_download(failure: Failure) -> bool {
    match failure {
        Failure::InstallMissing
        | Failure::MetadataUnreadable
        | Failure::MetadataMalformed
        | Failure::VersionMissing
        | Failure::ReleasesUnavailable
        | Failure::NoReleases
        | Failure::ProbeFailed
        | Failure::NotRedirect
        | Failure::LocationMissing
        | Failure::LocationNotText
        | Failure::LocationNotUrl
        | Failure::NoPathSegments
        | Failure::VersionSegmentMissing => true,
        _ => false,
    }
}

/// Failures that can only arise between the request for the archive and the
/// end of its body.
pub open spec fn during_download(failure: Failure) -> bool {
    match failure {
        Failure::DownloadFailed
        | Failure::DownloadRefused
        | Failure::ArchiveNotCreated
        | Failure::ChunkReadFailed
        | Failure::ChunkWriteFailed => true,
        _ => false,
    }
}

/// No action of the sequence asks anything of the version-discovery
/// endpoint.
pub open spec fn unprobed(actions: Seq<ActionView>) -> bool {
    forall|i: int| 0 <= i < actions.len() ==> !(#[trigger] actions[i] is Probe)
}

/// Both versions are known and they are the same.
pub open spec fn versions_equal(m: Model) -> bool {
    m.local is Some && m.remote == m.local
}

/// Both versions are known and they are not the same.
pub open spec fn versions_differ(m: Model) -> bool {
    m.local is Some && m.remote is Some && m.remote != m.local
}

/// The archive was requested once and not unpacked yet.
pub open spec fn fetching(m: Model, actions: Seq<ActionView>) -> bool {
    downloads(actions) == 1 && extractions(actions) == 0 && versions_differ(m)
}

/// The archive was requested once and its extraction was asked for once.
pub open spec fn unpacking(m: Model, actions: Seq<ActionView>) -> bool {
    downloads(actions) == 1 && extractions(actions) == 1 && versions_differ(m)
}

/// What the actions asked for so far must look like in each state.
pub open spec fn progress(m: Model, actions: Seq<ActionView>) -> bool {
    match m.phase {
        Phase::CheckingInstall
        | Phase::ReadingMetadata
        | Phase::FetchingReleases
        | Phase::Probing => untouched(actions),
        Phase::OpeningDownload
        | Phase::CreatingArchive
        | Phase::ReadingChunk
        | Phase::WritingChunk => fetching(m, actions),
        Phase::Extracting => unpacking(m, actions),
        Phase::Finished(Outcome::UpToDate) => untouched(actions) && versions_equal(m),
        Phase::Finished(Outcome::Updated)
        | Phase::Finished(Outcome::ExtractionWarning) => unpacking(m, actions),
        Phase::Finished(Outcome::Stopped(failure)) => if before_download(failure) {
            untouched(actions)
        } else if during_download(failure) {
            fetching(m, actions)
        } else if failure == Failure::ExtractorNotStarted {
            unpacking(m, actions)
        } else {
            true
        },
    }
}

/// The invariant of a run: the state is well formed and belongs to the
/// application and directory the run was opened for; the archive was
/// requested and unpacked at most once each, as the phase tells; the
/// versions are equal exactly where the run has ended as up to date;
/// nothing was asked of the version-discovery endpoint before the latest
/// version was looked for there; and whatever extraction was asked for is
/// the one that the state calls for.
pub open spec fn consistent(
    app: AppSelection,
    download_dir: Seq<char>,
    m: Model,
    actions: Seq<ActionView>,
) -> bool {
    &&& m.app == app
    &&& m.download_dir == download_dir
    &&& m.wf()
    &&& progress(m, actions)
    &&& downloads(actions) <= 1
    &&& extractions(actions) <= 1
    &&& versions_equal(m) <==> m.phase == Phase::Finished(Outcome::UpToDate)
    &&& m.phase is FetchingReleases ==> m.remote is None
    &&& m.phase is CheckingInstall || m.phase is ReadingMetadata || m.phase is FetchingReleases
        ==> unprobed(actions)
    &&& forall|i: int|
        0 <= i < actions.len() && #[trigger] actions[i] is Extract ==> actions[i]
            == m.extraction()
}

/// A sequence that touches no archive requests none and unpacks none.
pub proof fn lemma_untouched_counts(actions: Seq<ActionView>)
    requires
        untouched(actions),
    ensures
        downloads(actions) == 0,
        extractions(actions) == 0,
    decreases actions.len(),
{
    if actions.len() > 0 {
        assert(!touches_archive(actions[actions.len() - 1]));
        lemma_untouched_counts(actions.drop_last());
    }
}

proof fn lemma_push(actions: Seq<ActionView>, action: ActionView)
    ensures
        downloads(actions.push(action)) == downloads(actions) + if action is OpenDownload {
            1nat
        } else {
            0nat
        },
        extractions(actions.push(action)) == extractions(actions) + if action is Extract {
            1nat
        } else {
            0nat
        },
        untouched(actions) && !touches_archive(action) ==> untouched(actions.push(action)),
        unprobed(actions) && !(action is Probe) ==> unprobed(actions.push(action)),
{
    assert(actions.push(action).drop_last() =~= actions);
}

proof fn lemma_step(
    app: AppSelection,
    download_dir: Seq<char>,
    m: Model,
    actions: Seq<ActionView>,
    event: EventView,
)
    requires
        consistent(app, download_dir, m, actions),
    ensures
        consistent(app, download_dir, m.step(event).0, actions.push(m.step(event).1)),
{
    let (after, action) = m.step(event);
    lemma_push(actions, action);
    if untouched(actions) {
        lemma_untouched_counts(actions);
    }
    let all = actions.push(action);
    assert forall|i: int| 0 <= i < all.len() && #[trigger] all[i] is Extract implies all[i]
        == after.extraction() by {
        if i < actions.len() {
            assert(all[i] == actions[i]);
        }
    }
}

/// Every run keeps the invariant.
pub proof fn lemma_run_consistent(
    app: AppSelection,
    download_dir: Seq<char>,
    events: Seq<EventView>,
)
    ensures
        consistent(
            app,
            download_dir,
            run(app, download_dir, events).0,
            run(app, download_dir, events).1,
        ),
    decreases events.len(),
{
    if events.len() == 0 {
        let (first, action) = Model::start(app, download_dir);
        lemma_push(Seq::<ActionView>::empty(), action);
        assert(Seq::<ActionView>::empty().push(action) =~= seq![action]);
        assert(untouched(Seq::<ActionView>::empty()));
        assert(unprobed(Seq::<ActionView>::empty()));
    } else {
        lemma_run_consistent(app, download_dir, events.drop_last());
        let (before, actions) = run(app, download_dir, events.drop_last());
        lemma_step(app, download_dir, before, actions, events.last());
    }
}

/// One more event takes a run one step further.
pub proof fn lemma_run_push(
    app: AppSelection,
    download_dir: Seq<char>,
    events: Seq<EventView>,
    event: EventView,
)
    ensures
        run(app, download_dir, events.push(event)) == ({
            let (before, actions) = run(app, download_dir, events);
            let (after, action) = before.step(event);
            (after, actions.push(action))
        }),
{
    assert(events.push(event).drop_last() =~= events);
}

/// A run asks for one action at the start and one for each event, and more
/// events leave what was asked for before as it was.
pub proof fn lemma_run_prefix(
    app: AppSelection,
    download_dir: Seq<char>,
    events: Seq<EventView>,
    more: Seq<EventView>,
)
    ensures
        run(app, download_dir, events).1.len() == events.len() + 1,
        run(app, download_dir, events + more).1.len() == events.len() + more.len() + 1,
        run(app, download_dir, events + more).1.take(events.len() as int + 1) == run(
            app,
            download_dir,
            events,
        ).1,
    decreases more.len(), events.len(),
{
    if more.len() == 0 {
        assert(events + more =~= events);
        if events.len() > 0 {
            lemma_run_prefix(app, download_dir, events.drop_last(), more);
            assert(events.drop_last() + more =~= events.drop_last());
        }
        let actions = run(app, download_dir, events).1;
        assert(actions.take(events.len() as int + 1) =~= actions);
    } else {
        lemma_run_prefix(app, download_dir, events, more.drop_last());
        assert((events + more).drop_last() =~= events + more.drop_last());
        let shorter = run(app, download_dir, events + more.drop_last()).1;
        let longer = run(app, download_dir, events + more).1;
        assert(longer.take(events.len() as int + 1) =~= shorter.take(events.len() as int + 1));
    }
}

/// A sequence that counts no extraction holds none.
pub proof fn lemma_no_extraction(actions: Seq<ActionView>)
    requires
        extractions(actions) == 0,
    ensures
        forall|i: int| 0 <= i < actions.len() ==> !(#[trigger] actions[i] is Extract),
    decreases actions.len(),
{
    if actions.len() > 0 {
        lemma_no_extraction(actions.drop_last());
        assert forall|i: int| 0 <= i < actions.len() implies !(#[trigger] actions[i]
            is Extract) by {
            if i < actions.len() - 1 {
                assert(actions[i] == actions.drop_last()[i]);
            }
        }
    }
}

/// A finished run stays as it is: whatever is reported to it afterwards,
/// its state, and with it its outcome, does not change.
pub proof fn law_finished_run_stays(
    app: AppSelection,
    download_dir: Seq<char>,
    events: Seq<EventView>,
    more: Seq<EventView>,
)
    requires
        run(app, download_dir, events).0.phase is Finished,
    ensures
        run(app, download_dir, events + more).0 == run(app, download_dir, events).0,
    decreases more.len(),
{
    if more.len() == 0 {
        assert(events + more =~= events);
    } else {
        law_finished_run_stays(app, download_dir, events, more.drop_last());
        assert((events + more).drop_last() =~= events + more.drop_last());
    }
}

proof fn lemma_finished_answers(
    app: AppSelection,
    download_dir: Seq<char>,
    events: Seq<EventView>,
    more: Seq<EventView>,
    outcome: Outcome,
)
    requires
        run(app, download_dir, events).0.phase == Phase::Finished(outcome),
    ensures
        forall|i: int|
            events.len() < i < run(app, download_dir, events + more).1.len() ==> #[trigger] run(
                app,
                download_dir,
                events + more,
            ).1[i] == (ActionView::Finish { outcome }),
    decreases more.len(),
{
    lemma_run_prefix(app, download_dir, events, more);
    if more.len() > 0 {
        lemma_finished_answers(app, download_dir, events, more.drop_last(), outcome);
        law_finished_run_stays(app, download_dir, events, more.drop_last());
        lemma_run_prefix(app, download_dir, events, more.drop_last());
        assert((events + more).drop_last() =~= events + more.drop_last());
    }
}

/// A step that ends the run settles it: the state it leads to is the state
/// of the run whatever is reported afterwards, what was asked for before
/// stays as it was, and the answer to the step and every later action is
/// to finish with the outcome of that state. With it come the invariant of
/// the whole run and what it tells of a sequence that touches no archive,
/// counts no extraction, or had asked nothing of the version-discovery
/// endpoint.
pub proof fn lemma_ending_step(
    app: AppSelection,
    download_dir: Seq<char>,
    events: Seq<EventView>,
    event: EventView,
    more: Seq<EventView>,
    outcome: Outcome,
)
    requires
        run(app, download_dir, events).0.step(event).0.phase == Phase::Finished(outcome),
    ensures
        ({
            let asked = run(app, download_dir, events).1;
            let (m, actions) = run(app, download_dir, events.push(event) + more);
            &&& m == run(app, download_dir, events).0.step(event).0
            &&& consistent(app, download_dir, m, actions)
            &&& asked.len() == events.len() + 1
            &&& actions.len() == events.len() + more.len() + 2
            &&& forall|i: int| 0 <= i <= events.len() ==> #[trigger] actions[i] == asked[i]
            &&& forall|i: int|
                events.len() < i < actions.len() ==> #[trigger] actions[i] == (
                ActionView::Finish { outcome })
            &&& untouched(actions) ==> downloads(actions) == 0 && extractions(actions) == 0
            &&& extractions(actions) == 0 ==> forall|i: int|
                0 <= i < actions.len() ==> !(#[trigger] actions[i] is Extract)
            &&& unprobed(asked) ==> unprobed(actions)
        }),
{
    let ended = events.push(event);
    let asked = run(app, download_dir, events).1;
    let actions = run(app, download_dir, ended + more).1;
    lemma_run_push(app, download_dir, events, event);
    lemma_run_prefix(app, download_dir, events, Seq::empty());
    lemma_run_prefix(app, download_dir, ended, more);
    law_finished_run_stays(app, download_dir, ended, more);
    lemma_finished_answers(app, download_dir, ended, more, outcome);
    lemma_run_consistent(app, download_dir, ended + more);
    assert forall|i: int| 0 <= i <= events.len() implies #[trigger] actions[i] == asked[i] by {
        assert(actions.take(events.len() as int + 2)[i] == actions[i]);
    }
    let last = events.len() as int + 1;
    assert(actions.take(last + 1)[last] == actions[last]);
    if untouched(actions) {
        lemma_untouched_counts(actions);
    }
    if extractions(actions) == 0 {
        lemma_no_extraction(actions);
    }
}

/// The latest version as a redirection announces it to a run that is
/// waiting for one: the version known from the release index, or else the
/// one that the `Location` header spells.
pub open spec fn announced_version(m: Model, location: Seq<u8>) -> Option<Seq<char>> {
    match m.remote {
        Some(remote) => Some(remote),
        None => match header_reading(location) {
            Some(text) => match target_version(text) {
                Ok(version) => Some(version),
                Err(_) => None,
            },
            None => None,
        },
    }
}

/// In no run is the archive requested more than once or unpacked more than
/// once, and an extraction is only ever asked for out of the temporary file
/// named after the latest version, into the directory that holds the
/// installed application.
pub proof fn law_at_most_one_update(
    app: AppSelection,
    download_dir: Seq<char>,
    events: Seq<EventView>,
)
    ensures
        ({
            let (m, actions) = run(app, download_dir, events);
            &&& downloads(actions) <= 1
            &&& extractions(actions) <= 1
            &&& forall|i: int|
                0 <= i < actions.len() && #[trigger] actions[i] is Extract ==> actions[i] == (
                ActionView::Extract {
                    archive: app.archive_path_text(m.remote.unwrap()),
                    destination: app.extract_dir_text(download_dir),
                })
        }),
{
    lemma_run_consistent(app, download_dir, events);
}

/// Where the installed version equals the latest one, the run has ended as
/// up to date, which is a success with exit status 0, and it has asked for
/// no download and no extraction. Equality alone decides: it holds of every
/// run, whatever was reported in it.
pub proof fn law_equal_versions_update_nothing(
    app: AppSelection,
    download_dir: Seq<char>,
    events: Seq<EventView>,
)
    requires
        versions_equal(run(app, download_dir, events).0),
    ensures
        ({
            let (m, actions) = run(app, download_dir, events);
            &&& m.phase == Phase::Finished(Outcome::UpToDate)
            &&& Outcome::UpToDate.success()
            &&& Outcome::UpToDate.status() == 0
            &&& untouched(actions)
            &&& downloads(actions) == 0
            &&& extractions(actions) == 0
        }),
{
    lemma_run_consistent(app, download_dir, events);
    lemma_untouched_counts(run(app, download_dir, events).1);
}

/// Where a run waits for the release index and the first tag of the index
/// is the installed version, the run ends there as up to date, whatever the
/// rest of the index holds: the answer is to finish, nothing is ever asked
/// of the version-discovery endpoint, no download and no extraction is
/// asked for, and the exit status is 0.
pub proof fn law_same_tag_ends_run(
    app: AppSelection,
    download_dir: Seq<char>,
    events: Seq<EventView>,
    tags: Seq<Seq<char>>,
    more: Seq<EventView>,
)
    requires
        run(app, download_dir, events).0.phase == Phase::FetchingReleases,
        tags.len() > 0,
        run(app, download_dir, events).0.local == Some(tags[0]),
    ensures
        ({
            let answer = EventView::ReleasesFetched { tags };
            let (m, actions) = run(app, download_dir, events.push(answer) + more);
            &&& m.phase == Phase::Finished(Outcome::UpToDate)
            &&& m.remote == m.local
            &&& actions[events.len() as int + 1] == (ActionView::Finish {
                outcome: Outcome::UpToDate,
            })
            &&& Outcome::UpToDate.success()
            &&& Outcome::UpToDate.status() == 0
            &&& unprobed(actions)
            &&& untouched(actions)
            &&& downloads(actions) == 0
            &&& extractions(actions) == 0
        }),
{
    let answer = EventView::ReleasesFetched { tags };
    lemma_run_consistent(app, download_dir, events);
    lemma_ending_step(app, download_dir, events, answer, more, Outcome::UpToDate);
}

/// Where a run waits for the redirection without knowing the latest version
/// yet, and the `Location` header of the redirection spells the very
/// version that is installed, the run ends there as up to date: the answer
/// is to finish, no download and no extraction is ever asked for, and the
/// exit status is 0.
pub proof fn law_same_version_ends_run(
    app: AppSelection,
    download_dir: Seq<char>,
    events: Seq<EventView>,
    status: u16,
    location: Seq<u8>,
    more: Seq<EventView>,
)
    requires
        run(app, download_dir, events).0.phase == Phase::Probing,
        run(app, download_dir, events).0.remote is None,
        redirection(status),
        announced_version(run(app, download_dir, events).0, location) == run(
            app,
            download_dir,
            events,
        ).0.local,
    ensures
        ({
            let answer = EventView::Probed { status, location: Some(location) };
            let (m, actions) = run(app, download_dir, events.push(answer) + more);
            &&& m.phase == Phase::Finished(Outcome::UpToDate)
            &&& m.remote == m.local
            &&& actions[events.len() as int + 1] == (ActionView::Finish {
                outcome: Outcome::UpToDate,
            })
            &&& Outcome::UpToDate.success()
            &&& Outcome::UpToDate.status() == 0
            &&& untouched(actions)
            &&& downloads(actions) == 0
            &&& extractions(actions) == 0
        }),
{
    let answer = EventView::Probed { status, location: Some(location) };
    lemma_run_consistent(app, download_dir, events);
    lemma_ending_step(app, download_dir, events, answer, more, Outcome::UpToDate);
}

/// Where the installed version differs from the latest one and the run ends
/// without a failure, it has asked for the archive exactly once and for its
/// extraction exactly once, and that extraction unpacks the temporary file
/// named after the latest version into the directory that holds the
/// installed application.
pub proof fn law_differing_versions_update_once(
    app: AppSelection,
    download_dir: Seq<char>,
    events: Seq<EventView>,
    outcome: Outcome,
)
    requires
        versions_differ(run(app, download_dir, events).0),
        run(app, download_dir, events).0.phase == Phase::Finished(outcome),
        outcome.success(),
    ensures
        ({
            let (m, actions) = run(app, download_dir, events);
            &&& outcome == Outcome::Updated || outcome == Outcome::ExtractionWarning
            &&& outcome.status() == 0
            &&& downloads(actions) == 1
            &&& extractions(actions) == 1
            &&& forall|i: int|
                0 <= i < actions.len() && #[trigger] actions[i] is Extract ==> actions[i] == (
                ActionView::Extract {
                    archive: app.archive_path_text(m.remote.unwrap()),
                    destination: app.extract_dir_text(download_dir),
                })
        }),
{
    lemma_run_consistent(app, download_dir, events);
}

/// Where the version-discovery endpoint answers with anything but a
/// redirection, the run stops there with `NotRedirect`, which is a failure
/// with a non-zero exit status: the answer is to finish, and no download is
/// ever asked for.
pub proof fn law_not_redirect_stops_before_download(
    app: AppSelection,
    download_dir: Seq<char>,
    events: Seq<EventView>,
    status: u16,
    location: Option<Seq<u8>>,
    more: Seq<EventView>,
)
    requires
        run(app, download_dir, events).0.phase == Phase::Probing,
        !redirection(status),
    ensures
        ({
            let answer = EventView::Probed { status, location };
            let (m, actions) = run(app, download_dir, events.push(answer) + more);
            &&& m.phase == Phase::Finished(Outcome::Stopped(Failure::NotRedirect))
            &&& actions[events.len() as int + 1] == (ActionView::Finish {
                outcome: Outcome::Stopped(Failure::NotRedirect),
            })
            &&& Outcome::Stopped(Failure::NotRedirect).status() != 0
            &&& untouched(actions)
            &&& downloads(actions) == 0
        }),
{
    let answer = EventView::Probed { status, location };
    lemma_ending_step(
        app,
        download_dir,
        events,
        answer,
        more,
        Outcome::Stopped(Failure::NotRedirect),
    );
}

/// Where the release index lists no release, the run stops there with
/// `NoReleases`, which is a failure with a non-zero exit status: the answer
/// is to finish, nothing is ever asked of the version-discovery endpoint,
/// and no download is ever asked for.
pub proof fn law_no_releases_stops_before_download(
    app: AppSelection,
    download_dir: Seq<char>,
    events: Seq<EventView>,
    more: Seq<EventView>,
)
    requires
        run(app, download_dir, events).0.phase == Phase::FetchingReleases,
    ensures
        ({
            let answer = EventView::ReleasesFetched { tags: Seq::empty() };
            let (m, actions) = run(app, download_dir, events.push(answer) + more);
            &&& m.phase == Phase::Finished(Outcome::Stopped(Failure::NoReleases))
            &&& actions[events.len() as int + 1] == (ActionView::Finish {
                outcome: Outcome::Stopped(Failure::NoReleases),
            })
            &&& Outcome::Stopped(Failure::NoReleases).status() != 0
            &&& unprobed(actions)
            &&& untouched(actions)
            &&& downloads(actions) == 0
        }),
{
    let answer = EventView::ReleasesFetched { tags: Seq::empty() };
    lemma_run_consistent(app, download_dir, events);
    lemma_ending_step(
        app,
        download_dir,
        events,
        answer,
        more,
        Outcome::Stopped(Failure::NoReleases),
    );
}

/// Where a chunk of the archive cannot be written, the run stops there with
/// `ChunkWriteFailed`, which is a failure with a non-zero exit status: the
/// answer is to finish, and no extraction is ever asked for.
pub proof fn law_write_failure_stops_before_extraction(
    app: AppSelection,
    download_dir: Seq<char>,
    events: Seq<EventView>,
    more: Seq<EventView>,
)
    requires
        run(app, download_dir, events).0.phase == Phase::WritingChunk,
    ensures
        ({
            let (m, actions) = run(app, download_dir, events.push(EventView::Failed) + more);
            &&& m.phase == Phase::Finished(Outcome::Stopped(Failure::ChunkWriteFailed))
            &&& actions[events.len() as int + 1] == (ActionView::Finish {
                outcome: Outcome::Stopped(Failure::ChunkWriteFailed),
            })
            &&& Outcome::Stopped(Failure::ChunkWriteFailed).status() != 0
            &&& extractions(actions) == 0
            &&& forall|i: int| 0 <= i < actions.len() ==> !(#[trigger] actions[i] is Extract)
        }),
{
    lemma_ending_step(
        app,
        download_dir,
        events,
        EventView::Failed,
        more,
        Outcome::Stopped(Failure::ChunkWriteFailed),
    );
}

/// How many times the sequence asks for the next chunk of the archive.
pub open spec fn chunks_asked(actions: Seq<ActionView>) -> nat
    decreases actions.len(),
{
    if actions.len() == 0 {
        0
    } else {
        chunks_asked(actions.drop_last()) + if actions.last() is ReadChunk {
            1nat
        } else {
            0nat
        }
    }
}

/// How many times the sequence asks to write the chunk in hand.
pub open spec fn chunks_stored(actions: Seq<ActionView>) -> nat
    decreases actions.len(),
{
    if actions.len() == 0 {
        0
    } else {
        chunks_stored(actions.drop_last()) + if actions.last() is WriteChunk {
            1nat
        } else {
            0nat
        }
    }
}

/// How the chunks asked for and the chunks stored go together in each state:
/// none of either before the archive file exists, one more asked for than
/// stored while a chunk is awaited, as many as stored while one is written.
pub open spec fn paced(m: Model, actions: Seq<ActionView>) -> bool {
    let asked = chunks_asked(actions);
    let stored = chunks_stored(actions);
    match m.phase {
        Phase::CheckingInstall
        | Phase::ReadingMetadata
        | Phase::FetchingReleases
        | Phase::Probing
        | Phase::OpeningDownload
        | Phase::CreatingArchive => asked == 0 && stored == 0,
        Phase::ReadingChunk => asked == stored + 1,
        Phase::WritingChunk => asked == stored,
        _ => stored <= asked <= stored + 1,
    }
}

proof fn lemma_push_chunks(actions: Seq<ActionView>, action: ActionView)
    ensures
        chunks_asked(actions.push(action)) == chunks_asked(actions) + if action is ReadChunk {
            1nat
        } else {
            0nat
        },
        chunks_stored(actions.push(action)) == chunks_stored(actions) + if action is WriteChunk {
            1nat
        } else {
            0nat
        },
{
    assert(actions.push(action).drop_last() =~= actions);
}

/// The archive is stored chunk by chunk: in every run, each chunk is
/// written before the next is asked for, so that at no time more than one
/// chunk is in hand.
pub proof fn law_one_chunk_at_a_time(
    app: AppSelection,
    download_dir: Seq<char>,
    events: Seq<EventView>,
)
    ensures
        paced(run(app, download_dir, events).0, run(app, download_dir, events).1),
        chunks_stored(run(app, download_dir, events).1) <= chunks_asked(
            run(app, download_dir, events).1,
        ) <= chunks_stored(run(app, download_dir, events).1) + 1,
    decreases events.len(),
{
    if events.len() == 0 {
        let (first, action) = Model::start(app, download_dir);
        lemma_push_chunks(Seq::<ActionView>::empty(), action);
        assert(Seq::<ActionView>::empty().push(action) =~= seq![action]);
    } else {
        law_one_chunk_at_a_time(app, download_dir, events.drop_last());
        let (before, actions) = run(app, download_dir, events.drop_last());
        lemma_push_chunks(actions, before.step(events.last()).1);
    }
}

/// What is reported while `chunks` chunks arrive and are written, one after
/// the other.
pub open spec fn chunk_events(chunks: nat) -> Seq<EventView>
    decreases chunks,
{
    if chunks == 0 {
        Seq::empty()
    } else {
        chunk_events((chunks - 1) as nat).push(EventView::ChunkRead).push(EventView::ChunkWritten)
    }
}

/// What is reported during a download in which nothing fails: the server
/// answers with `status`, the archive file is created, `chunks` chunks
/// arrive and are written, the body ends, and the extraction tool runs.
pub open spec fn download_events(status: u16, chunks: nat, extracted: bool) -> Seq<EventView> {
    seq![EventView::DownloadOpened { status }, EventView::ArchiveCreated] + chunk_events(chunks)
        + seq![EventView::BodyEnded, EventView::Extracted { success: extracted }]
}

proof fn lemma_chunks_arrive(
    app: AppSelection,
    download_dir: Seq<char>,
    events: Seq<EventView>,
    chunks: nat,
)
    requires
        run(app, download_dir, events).0.phase == Phase::ReadingChunk,
    ensures
        run(app, download_dir, events + chunk_events(chunks)).0 == run(
            app,
            download_dir,
            events,
        ).0,
    decreases chunks,
{
    if chunks == 0 {
        assert(events + chunk_events(chunks) =~= events);
    } else {
        let earlier = events + chunk_events((chunks - 1) as nat);
        lemma_chunks_arrive(app, download_dir, events, (chunks - 1) as nat);
        lemma_run_push(app, download_dir, earlier, EventView::ChunkRead);
        lemma_run_push(
            app,
            download_dir,
            earlier.push(EventView::ChunkRead),
            EventView::ChunkWritten,
        );
        assert(events + chunk_events(chunks) =~= earlier.push(EventView::ChunkRead).push(
            EventView::ChunkWritten,
        ));
    }
}

/// Where a run waits for the redirection, the redirection announces a
/// version other than the installed one and names an address, and nothing
/// fails afterwards, the run ends as updated (with a warning where the
/// extraction tool reports a failure): it has asked for the archive exactly
/// once, and exactly once for its extraction, out of the temporary file
/// named after the announced version, into the directory that holds the
/// installed application, as the last thing before it finished.
pub proof fn law_differing_versions_update(
    app: AppSelection,
    download_dir: Seq<char>,
    events: Seq<EventView>,
    probe_status: u16,
    location: Seq<u8>,
    version: Seq<char>,
    download_status: u16,
    chunks: nat,
    extracted: bool,
)
    requires
        run(app, download_dir, events).0.phase == Phase::Probing,
        redirection(probe_status),
        announced_version(run(app, download_dir, events).0, location) == Some(version),
        run(app, download_dir, events).0.local != Some(version),
        header_reading(location) matches Some(text) && target_address(text) is Ok,
        successful(download_status),
    ensures
        ({
            let answer = EventView::Probed { status: probe_status, location: Some(location) };
            let (m, actions) = run(
                app,
                download_dir,
                events.push(answer) + download_events(download_status, chunks, extracted),
            );
            &&& m.phase == Phase::Finished(
                if extracted {
                    Outcome::Updated
                } else {
                    Outcome::ExtractionWarning
                },
            )
            &&& m.remote == Some(version)
            &&& downloads(actions) == 1
            &&& extractions(actions) == 1
            &&& actions.len() >= 2
            &&& actions[actions.len() - 2] == (ActionView::Extract {
                archive: app.archive_path_text(version),
                destination: app.extract_dir_text(download_dir),
            })
        }),
{
    let answer = EventView::Probed { status: probe_status, location: Some(location) };
    let opened = EventView::DownloadOpened { status: download_status };
    let ended = EventView::BodyEnded;
    let done = EventView::Extracted { success: extracted };
    lemma_run_consistent(app, download_dir, events);
    let e1 = events.push(answer);
    lemma_run_push(app, download_dir, events, answer);
    let e2 = e1.push(opened);
    lemma_run_push(app, download_dir, e1, opened);
    let e3 = e2.push(EventView::ArchiveCreated);
    lemma_run_push(app, download_dir, e2, EventView::ArchiveCreated);
    let e4 = e3 + chunk_events(chunks);
    lemma_chunks_arrive(app, download_dir, e3, chunks);
    let e5 = e4.push(ended);
    lemma_run_push(app, download_dir, e4, ended);
    let e6 = e5.push(done);
    lemma_run_push(app, download_dir, e5, done);
    assert(e6 =~= events.push(answer) + download_events(download_status, chunks, extracted));
    lemma_run_consistent(app, download_dir, e6);
}

} // verus!
