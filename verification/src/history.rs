//! What holds of every run, whatever its driver reports.

use crate::catalog::{release_tags, unique_tags};
use crate::error::Failure;
use crate::platform::matching_asset;
use crate::release::{AssetView, ReleaseView};
use crate::run::{next_state, request_in, run_step, EventView, RequestView, RunView, StateView};
use crate::target::install_directory;
use crate::text::first_position;
use vstd::prelude::*;

verus! {

/// The run that `run` has become when `events` were reported to it in turn.
pub open spec fn run_after(run: RunView, events: Seq<EventView>) -> RunView
    decreases events.len(),
{
    if events.len() == 0 {
        run
    } else {
        run_step(run_after(run, events.drop_last()), events.last())
    }
}

/// `event` reports a well-formed listing that holds the version that `run`
/// is to install.
pub open spec fn confirms_version(run: RunView, event: EventView) -> bool {
    event matches EventView::CatalogFetched(Ok(releases)) && unique_tags(releases)
        && release_tags(releases).contains(run.requested)
}

/// `event` reports that the archive was downloaded.
pub open spec fn reports_download(event: EventView) -> bool {
    event matches EventView::Downloaded(Ok(_))
}

/// `event` reports that the archive was unpacked, and a home directory
/// below which `directory` is the install directory.
pub open spec fn reports_unpacking(event: EventView, directory: Seq<Seq<char>>) -> bool {
    event matches EventView::Extracted { outcome: Ok(_), home: Some(home) } && directory
        == install_directory(home)
}

/// `event` reports that the executable was moved into place.
pub open spec fn reports_placement(event: EventView) -> bool {
    event matches EventView::Installed(Ok(_))
}

/// Among `events` is a listing that confirms the version of `run`.
pub open spec fn version_confirmed(run: RunView, events: Seq<EventView>) -> bool {
    exists|i: int| 0 <= i < events.len() && confirms_version(run, #[trigger] events[i])
}

/// Among `events` are, in this order, a listing that confirms the version
/// of `run` and a successful download.
pub open spec fn archive_downloaded(run: RunView, events: Seq<EventView>) -> bool {
    exists|i: int, j: int|
        0 <= i < j < events.len() && confirms_version(run, #[trigger] events[i])
            && reports_download(#[trigger] events[j])
}

/// Among `events` are, in this order, a listing that confirms the version
/// of `run`, a successful download, and a successful unpacking with a home
/// directory that gives `directory`.
pub open spec fn archive_unpacked(
    run: RunView,
    events: Seq<EventView>,
    directory: Seq<Seq<char>>,
) -> bool {
    exists|i: int, j: int, k: int|
        0 <= i < j < k < events.len() && confirms_version(run, #[trigger] events[i])
            && reports_download(#[trigger] events[j]) && reports_unpacking(
            #[trigger] events[k],
            directory,
        )
}

/// Among `events` are, in this order, everything that `archive_unpacked`
/// asks for and a successful move of the executable.
pub open spec fn executable_placed(
    run: RunView,
    events: Seq<EventView>,
    directory: Seq<Seq<char>>,
) -> bool {
    exists|i: int, j: int, k: int, l: int|
        0 <= i < j < k < l < events.len() && confirms_version(run, #[trigger] events[i])
            && reports_download(#[trigger] events[j]) && reports_unpacking(
            #[trigger] events[k],
            directory,
        ) && reports_placement(#[trigger] events[l])
}

/// What the events so far must hold for a run to be in `state`.
pub open spec fn accounts_for(run: RunView, events: Seq<EventView>, state: StateView) -> bool {
    match state {
        StateView::Idle => true,
        StateView::VersionChecked { .. } => version_confirmed(run, events),
        StateView::Downloaded => archive_downloaded(run, events),
        StateView::Extracted { directory } => archive_unpacked(run, events, directory),
        StateView::Installed { directory } => executable_placed(run, events, directory),
        StateView::Failed { .. } => true,
    }
}

/// How far `state` is from the start of a run. The two ways in which a run
/// ends are equally far.
pub open spec fn progress(state: StateView) -> int {
    match state {
        StateView::Idle => 0,
        StateView::VersionChecked { .. } => 1,
        StateView::Downloaded => 2,
        StateView::Extracted { .. } => 3,
        StateView::Installed { .. } => 4,
        StateView::Failed { .. } => 4,
    }
}

/// Reporting `first` and then `second` is reporting the two in one go.
pub proof fn run_after_both(run: RunView, first: Seq<EventView>, second: Seq<EventView>)
    ensures
        run_after(run, first + second) == run_after(run_after(run, first), second),
    decreases second.len(),
{
    if second.len() == 0 {
        assert(first + second =~= first);
    } else {
        assert((first + second).drop_last() =~= first + second.drop_last());
        run_after_both(run, first, second.drop_last());
    }
}

/// A run only moves forward: whatever is reported, it either stays in its
/// state or is further from the start than it was. So no state is entered
/// twice, and no request is made anew once it was answered.
pub proof fn run_moves_forward(run: RunView, events: Seq<EventView>)
    ensures
        run_after(run, events).state == run.state || progress(run.state) < progress(
            run_after(run, events).state,
        ),
    decreases events.len(),
{
    if events.len() > 0 {
        run_moves_forward(run, events.drop_last());
    }
}

/// `event` is of the kind that answers the request in flight in `state`.
pub open spec fn answers(state: StateView, event: EventView) -> bool {
    match (state, event) {
        (StateView::Idle, EventView::CatalogFetched(_)) => true,
        (StateView::VersionChecked { .. }, EventView::Downloaded(_)) => true,
        (StateView::Downloaded, EventView::Extracted { .. }) => true,
        (StateView::Extracted { .. }, EventView::Installed(_)) => true,
        _ => false,
    }
}

/// Every answer brings a run further: when each of `events` answers the
/// request that is in flight at its turn, the run has come at least as many
/// stages as there are events. The end is four stages from the start, so a
/// run makes at most four requests before it requests `Finish`.
pub proof fn answers_advance_run(run: RunView, events: Seq<EventView>)
    requires
        forall|n: int|
            0 <= n < events.len() ==> answers(
                run_after(run, #[trigger] events.take(n)).state,
                events[n],
            ),
    ensures
        progress(run.state) + events.len() <= progress(run_after(run, events).state) <= 4,
        progress(run.state) + events.len() == 4 ==> request_in(run_after(run, events).state)
            is Finish,
    decreases events.len(),
{
    if events.len() > 0 {
        let front = events.drop_last();
        assert forall|n: int| 0 <= n < front.len() implies answers(
            run_after(run, #[trigger] front.take(n)).state,
            front[n],
        ) by {
            assert(front.take(n) =~= events.take(n));
        }
        answers_advance_run(run, front);
        assert(events.take(front.len() as int) =~= front);
    }
}

/// A run stays the run of one version on one platform.
pub proof fn run_keeps_its_subject(run: RunView, events: Seq<EventView>)
    ensures
        run_after(run, events).requested == run.requested,
        run_after(run, events).platform == run.platform,
    decreases events.len(),
{
    if events.len() > 0 {
        run_keeps_its_subject(run, events.drop_last());
    }
}

/// Once a run requests `Finish`, nothing that is reported to it changes it:
/// a failure at any step ends the run, and so does its success.
pub proof fn finished_run_stays_finished(run: RunView, events: Seq<EventView>)
    requires
        request_in(run.state) is Finish,
    ensures
        run_after(run, events) == run,
    decreases events.len(),
{
    if events.len() > 0 {
        finished_run_stays_finished(run, events.drop_last());
    }
}

/// A version that the catalog lacks is refused at once, with the versions
/// that the catalog has, most recent first: when the first event reports a
/// well-formed listing without the requested version, the run has failed
/// with `UnknownVersion` after that event and after every later one, and at
/// no time does it request a download or a move into the install directory.
pub proof fn unknown_version_stops_run(
    run: RunView,
    releases: Seq<ReleaseView>,
    events: Seq<EventView>,
)
    requires
        run.state is Idle,
        unique_tags(releases),
        !release_tags(releases).contains(run.requested),
        events.len() > 0,
        events[0] == EventView::CatalogFetched(Ok(releases)),
    ensures
        run_after(run, events).state == (StateView::Failed {
            error: Failure::UnknownVersion { valid: release_tags(releases) },
        }),
        forall|n: int|
            0 <= n <= events.len() ==> {
                let request = request_in(run_after(run, #[trigger] events.take(n)).state);
                request !is Download && request !is Install
            },
    decreases events.len(),
{
    let front = events.drop_last();
    if events.len() == 1 {
        assert(run_after(run, front) == run);
        release_tags(releases).index_of_first_ensures(run.requested);
    } else {
        unknown_version_stops_run(run, releases, front);
    }
    assert forall|n: int| 0 <= n <= events.len() implies {
        let request = request_in(run_after(run, #[trigger] events.take(n)).state);
        request !is Download && request !is Install
    } by {
        if n == events.len() {
            assert(events.take(n) =~= events);
        } else if n > 0 {
            assert(events.take(n) =~= front.take(n));
        }
    }
}

/// Every state of a run that started idle is accounted for by the events
/// that were reported to it.
pub proof fn state_is_accounted_for(run: RunView, events: Seq<EventView>)
    requires
        run.state is Idle,
    ensures
        accounts_for(run, events, run_after(run, events).state),
    decreases events.len(),
{
    if events.len() > 0 {
        let front = events.drop_last();
        let event = events.last();
        let before = run_after(run, front);
        let after = run_after(run, events).state;
        state_is_accounted_for(run, front);
        run_keeps_its_subject(run, front);
        assert(after == next_state(run.requested, run.platform, before.state, event));
        assert(forall|i: int| 0 <= i < front.len() ==> front[i] == events[i]);
        let last = events.len() - 1;
        match after {
            StateView::VersionChecked { .. } => {
                if before.state is Idle {
                    let releases = event->CatalogFetched_0->Ok_0;
                    release_tags(releases).index_of_first_ensures(run.requested);
                    assert(confirms_version(run, events[last]));
                } else {
                    let i = choose|i: int|
                        0 <= i < front.len() && confirms_version(run, #[trigger] front[i]);
                    assert(confirms_version(run, events[i]));
                }
            },
            StateView::Downloaded => {
                if before.state is VersionChecked {
                    let i = choose|i: int|
                        0 <= i < front.len() && confirms_version(run, #[trigger] front[i]);
                    assert(confirms_version(run, events[i]) && reports_download(events[last]));
                } else {
                    let (i, j) = choose|i: int, j: int|
                        0 <= i < j < front.len() && confirms_version(run, #[trigger] front[i])
                            && reports_download(#[trigger] front[j]);
                    assert(confirms_version(run, events[i]) && reports_download(events[j]));
                }
            },
            StateView::Extracted { directory } => {
                if before.state is Downloaded {
                    let (i, j) = choose|i: int, j: int|
                        0 <= i < j < front.len() && confirms_version(run, #[trigger] front[i])
                            && reports_download(#[trigger] front[j]);
                    assert(confirms_version(run, events[i]) && reports_download(events[j])
                        && reports_unpacking(events[last], directory));
                } else {
                    let (i, j, k) = choose|i: int, j: int, k: int|
                        0 <= i < j < k < front.len() && confirms_version(run, #[trigger] front[i])
                            && reports_download(#[trigger] front[j]) && reports_unpacking(
                            #[trigger] front[k],
                            directory,
                        );
                    assert(confirms_version(run, events[i]) && reports_download(events[j])
                        && reports_unpacking(events[k], directory));
                }
            },
            StateView::Installed { directory } => {
                if before.state is Extracted {
                    let (i, j, k) = choose|i: int, j: int, k: int|
                        0 <= i < j < k < front.len() && confirms_version(run, #[trigger] front[i])
                            && reports_download(#[trigger] front[j]) && reports_unpacking(
                            #[trigger] front[k],
                            directory,
                        );
                    assert(confirms_version(run, events[i]) && reports_download(events[j])
                        && reports_unpacking(events[k], directory) && reports_placement(
                        events[last],
                    ));
                } else {
                    let (i, j, k, l) = choose|i: int, j: int, k: int, l: int|
                        0 <= i < j < k < l < front.len() && confirms_version(
                            run,
                            #[trigger] front[i],
                        ) && reports_download(#[trigger] front[j]) && reports_unpacking(
                            #[trigger] front[k],
                            directory,
                        ) && reports_placement(#[trigger] front[l]);
                    assert(confirms_version(run, events[i]) && reports_download(events[j])
                        && reports_unpacking(events[k], directory) && reports_placement(
                        events[l],
                    ));
                }
            },
            _ => {},
        }
    }
}

/// No download before the version is known to be valid: whenever a run
/// that started idle requests a download, a listing that confirms the
/// requested version is among the events reported before.
pub proof fn download_follows_confirmation(run: RunView, events: Seq<EventView>)
    requires
        run.state is Idle,
    ensures
        forall|n: int|
            0 <= n <= events.len() && request_in(
                run_after(run, #[trigger] events.take(n)).state,
            ) is Download ==> version_confirmed(run, events.take(n)),
{
    assert forall|n: int|
        0 <= n <= events.len() && request_in(
            run_after(run, #[trigger] events.take(n)).state,
        ) is Download implies version_confirmed(run, events.take(n)) by {
        state_is_accounted_for(run, events.take(n));
    }
}

/// The install directory is touched last, after every preparation has
/// succeeded: whenever a run that started idle requests the move, the
/// events reported before hold a confirming listing, a successful download
/// and a successful unpacking, in this order; the directory is the install
/// directory below the home directory that was reported, and the file is
/// the DuckDB executable.
pub proof fn install_follows_preparation(run: RunView, events: Seq<EventView>)
    requires
        run.state is Idle,
    ensures
        forall|n: int|
            0 <= n <= events.len() ==> (request_in(
                run_after(run, #[trigger] events.take(n)).state,
            ) matches RequestView::Install { directory, executable } ==> archive_unpacked(
                run,
                events.take(n),
                directory,
            ) && executable == "duckdb"@),
{
    assert forall|n: int| 0 <= n <= events.len() implies (request_in(
        run_after(run, #[trigger] events.take(n)).state,
    ) matches RequestView::Install { directory, executable } ==> archive_unpacked(
        run,
        events.take(n),
        directory,
    ) && executable == "duckdb"@) by {
        state_is_accounted_for(run, events.take(n));
    }
}

/// A run that started idle and has installed the executable was told, in
/// this order, of a confirming listing, a successful download, a
/// successful unpacking and a successful move, and the directory that it
/// reports is the install directory below the home directory that was
/// reported with the unpacking.
pub proof fn success_follows_every_step(run: RunView, events: Seq<EventView>)
    requires
        run.state is Idle,
    ensures
        run_after(run, events).state matches StateView::Installed { directory }
            ==> executable_placed(run, events, directory),
{
    state_is_accounted_for(run, events);
}

/// A run whose every step succeeds installs the requested version: for a
/// version that a well-formed listing holds, with an archive for the
/// platform, the run requests the download of that archive, then the
/// unpacking, then the move of the DuckDB executable into the install
/// directory below the home directory that was reported, and ends
/// installed there.
pub proof fn successful_steps_install(
    run: RunView,
    releases: Seq<ReleaseView>,
    at: int,
    asset: AssetView,
    home: Seq<char>,
)
    requires
        run.state is Idle,
        unique_tags(releases),
        0 <= at < releases.len(),
        releases[at].tag == run.requested,
        matching_asset(releases[at], run.platform) == Some(asset),
    ensures
        ({
            let events = seq![
                EventView::CatalogFetched(Ok(releases)),
                EventView::Downloaded(Ok(())),
                EventView::Extracted { outcome: Ok(()), home: Some(home) },
                EventView::Installed(Ok(())),
            ];
            let directory = install_directory(home);
            &&& request_in(run_after(run, events.take(0)).state) == RequestView::FetchCatalog
            &&& request_in(run_after(run, events.take(1)).state) == (RequestView::Download {
                asset,
            })
            &&& request_in(run_after(run, events.take(2)).state) == RequestView::Extract
            &&& request_in(run_after(run, events.take(3)).state) == (RequestView::Install {
                directory,
                executable: "duckdb"@,
            })
            &&& run_after(run, events).state == (StateView::Installed { directory })
            &&& request_in(run_after(run, events).state) == RequestView::Finish
        }),
{
    let events = seq![
        EventView::CatalogFetched(Ok(releases)),
        EventView::Downloaded(Ok(())),
        EventView::Extracted { outcome: Ok(()), home: Some(home) },
        EventView::Installed(Ok(())),
    ];
    let tags = release_tags(releases);
    assert(tags[at] == run.requested);
    first_position(tags, run.requested, at);
    assert(events.take(0).len() == 0);
    assert(events.take(1).drop_last() =~= events.take(0));
    assert(events.take(2).drop_last() =~= events.take(1));
    assert(events.take(3).drop_last() =~= events.take(2));
    assert(events.drop_last() =~= events.take(3));
    assert(events.take(1).last() == events[0]);
    assert(events.take(2).last() == events[1]);
    assert(events.take(3).last() == events[2]);
    let first = run_after(run, events.take(1));
    assert(first.state == (StateView::VersionChecked { asset }));
    let second = run_after(run, events.take(2));
    assert(second.state == StateView::Downloaded);
    let third = run_after(run, events.take(3));
    assert(third.state == (StateView::Extracted { directory: install_directory(home) }));
}

} // verus!
