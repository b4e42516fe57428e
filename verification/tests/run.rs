use duckup::error::{ExtractError, FetchError, InstallError, OrchestrationError};
use duckup::platform::Platform;
use duckup::release::{Asset, Release};
use duckup::run::{check_version, install_duckdb, Event, InstallRun, Request, Stage, State};
use duckup::target::InstallTarget;

fn texts(items: &[&str]) -> Vec<String> {
    items.iter().map(|item| item.to_string()).collect()
}

fn linux() -> Platform {
    Platform::detect("linux", "x86_64")
}

fn archive() -> Asset {
    Asset::new(
        "duckdb_cli-linux-amd64.zip".to_string(),
        "https://example.org/v1.1.0/duckdb_cli-linux-amd64.zip".to_string(),
    )
}

/// The catalog {"v1.0.0", "v1.1.0"}, most recent first, with an archive
/// for Linux in v1.1.0 alone.
fn listing() -> Vec<Release> {
    vec![
        Release::new("v1.1.0".to_string(), vec![archive()]),
        Release::new("v1.0.0".to_string(), vec![]),
    ]
}

fn home() -> Option<String> {
    Some("/home/alice".to_string())
}

/// What a driver did while it ran a script of outcomes.
#[derive(Debug, Default, PartialEq, Eq)]
struct Calls {
    fetches: usize,
    downloads: usize,
    extractions: usize,
    installs: usize,
}

/// Outcomes that a driver without a network or a disk reports.
struct Script {
    catalog: Result<Vec<Release>, FetchError>,
    download: Result<(), FetchError>,
    extraction: Result<(), ExtractError>,
    home: Option<String>,
    install: Result<(), InstallError>,
}

impl Script {
    fn all_well() -> Script {
        Script {
            catalog: Ok(listing()),
            download: Ok(()),
            extraction: Ok(()),
            home: home(),
            install: Ok(()),
        }
    }
}

/// Runs `requested` to its end against `script` and counts the calls.
fn drive(requested: &str, script: Script) -> (InstallRun, Calls) {
    let mut calls = Calls::default();
    let mut catalog = Some(script.catalog);
    let mut home = script.home;
    let mut run = install_duckdb(requested.to_string(), linux());
    for _ in 0..10 {
        let event = match run.request() {
            Request::FetchCatalog => {
                calls.fetches += 1;
                Event::CatalogFetched(catalog.take().expect("the catalog is fetched once"))
            }
            Request::Download { .. } => {
                calls.downloads += 1;
                Event::Downloaded(script.download)
            }
            Request::Extract => {
                calls.extractions += 1;
                Event::Extracted { outcome: script.extraction, home: home.take() }
            }
            Request::Install { .. } => {
                calls.installs += 1;
                Event::Installed(script.install)
            }
            Request::Finish => return (run, calls),
        };
        run = run.step(event);
    }
    panic!("the run did not finish");
}

#[test]
fn run_starts_idle_and_fetches_the_catalog() {
    let run = install_duckdb("v1.1.0".to_string(), linux());
    assert_eq!(run.stage(), Stage::Idle);
    assert_eq!(run.state(), &State::Idle);
    assert_eq!(run.requested(), "v1.1.0");
    assert_eq!(run.platform(), linux());
    assert_eq!(run.request(), Request::FetchCatalog);
    assert_eq!(run.outcome(), None);
}

#[test]
fn run_of_known_version_installs() {
    let (run, calls) = drive("v1.1.0", Script::all_well());
    assert_eq!(calls, Calls { fetches: 1, downloads: 1, extractions: 1, installs: 1 });
    assert_eq!(run.stage(), Stage::Installed);
    assert_eq!(
        run.state(),
        &State::Installed {
            target: InstallTarget { directory: texts(&["/home/alice", ".local", "bin"]) }
        }
    );
    assert_eq!(run.outcome(), Some(Ok(texts(&["/home/alice", ".local", "bin", "duckdb"]))));
}

#[test]
fn run_requests_each_step_in_turn() {
    let run = install_duckdb("v1.1.0".to_string(), linux());
    let run = run.step(Event::CatalogFetched(Ok(listing())));
    assert_eq!(run.stage(), Stage::VersionChecked);
    assert_eq!(run.request(), Request::Download { asset: archive() });
    let run = run.step(Event::Downloaded(Ok(())));
    assert_eq!(run.stage(), Stage::Downloaded);
    assert_eq!(run.request(), Request::Extract);
    let run = run.step(Event::Extracted { outcome: Ok(()), home: home() });
    assert_eq!(run.stage(), Stage::Extracted);
    assert_eq!(
        run.request(),
        Request::Install {
            target: InstallTarget { directory: texts(&["/home/alice", ".local", "bin"]) },
            executable: "duckdb".to_string(),
        }
    );
    let run = run.step(Event::Installed(Ok(())));
    assert_eq!(run.stage(), Stage::Installed);
    assert_eq!(run.request(), Request::Finish);
}

#[test]
fn run_of_unknown_version_lists_the_valid_ones() {
    let (run, calls) = drive("v9.9.9", Script::all_well());
    assert_eq!(calls, Calls { fetches: 1, downloads: 0, extractions: 0, installs: 0 });
    assert_eq!(run.stage(), Stage::Failed);
    assert_eq!(
        run.outcome(),
        Some(Err(OrchestrationError::UnknownVersion { valid: texts(&["v1.1.0", "v1.0.0"]) }))
    );
}

#[test]
fn run_of_unknown_version_in_empty_catalog() {
    let script = Script { catalog: Ok(vec![]), ..Script::all_well() };
    let (run, calls) = drive("v1.1.0", script);
    assert_eq!(calls.downloads, 0);
    assert_eq!(run.outcome(), Some(Err(OrchestrationError::UnknownVersion { valid: vec![] })));
}

#[test]
fn run_matches_the_version_exactly() {
    let (run, calls) = drive("V1.1.0", Script::all_well());
    assert_eq!(calls.downloads, 0);
    assert_eq!(run.stage(), Stage::Failed);
    let (run, _) = drive("v1.1", Script::all_well());
    assert_eq!(
        run.outcome(),
        Some(Err(OrchestrationError::UnknownVersion { valid: texts(&["v1.1.0", "v1.0.0"]) }))
    );
}

#[test]
fn run_fails_when_the_catalog_cannot_be_fetched() {
    let script = Script { catalog: Err(FetchError::Network), ..Script::all_well() };
    let (run, calls) = drive("v1.1.0", script);
    assert_eq!(calls, Calls { fetches: 1, downloads: 0, extractions: 0, installs: 0 });
    assert_eq!(run.outcome(), Some(Err(OrchestrationError::Network)));
}

#[test]
fn run_fails_when_the_listing_is_malformed() {
    let script = Script { catalog: Err(FetchError::Parse), ..Script::all_well() };
    let (run, calls) = drive("v1.1.0", script);
    assert_eq!(calls.downloads, 0);
    assert_eq!(run.outcome(), Some(Err(OrchestrationError::Parse)));
}

#[test]
fn run_fails_when_the_listing_repeats_a_tag() {
    let mut releases = listing();
    releases.push(Release::new("v1.1.0".to_string(), vec![]));
    let script = Script { catalog: Ok(releases), ..Script::all_well() };
    let (run, calls) = drive("v1.1.0", script);
    assert_eq!(calls.downloads, 0);
    assert_eq!(run.outcome(), Some(Err(OrchestrationError::Parse)));
}

#[test]
fn run_fails_without_an_archive_for_the_platform() {
    let (run, calls) = drive("v1.0.0", Script::all_well());
    assert_eq!(calls, Calls { fetches: 1, downloads: 0, extractions: 0, installs: 0 });
    assert_eq!(run.outcome(), Some(Err(OrchestrationError::AssetNotFound)));
}

#[test]
fn run_fails_when_the_download_fails() {
    let script = Script { download: Err(FetchError::Network), ..Script::all_well() };
    let (run, calls) = drive("v1.1.0", script);
    assert_eq!(calls, Calls { fetches: 1, downloads: 1, extractions: 0, installs: 0 });
    assert_eq!(run.outcome(), Some(Err(OrchestrationError::Network)));
    let script = Script { download: Err(FetchError::Io), ..Script::all_well() };
    let (run, calls) = drive("v1.1.0", script);
    assert_eq!(calls.installs, 0);
    assert_eq!(run.outcome(), Some(Err(OrchestrationError::Io)));
}

#[test]
fn run_fails_when_the_archive_is_corrupt() {
    let script = Script { extraction: Err(ExtractError::CorruptArchive), ..Script::all_well() };
    let (run, calls) = drive("v1.1.0", script);
    assert_eq!(calls, Calls { fetches: 1, downloads: 1, extractions: 1, installs: 0 });
    assert_eq!(run.outcome(), Some(Err(OrchestrationError::CorruptArchive)));
    let script = Script { extraction: Err(ExtractError::Io), ..Script::all_well() };
    let (run, calls) = drive("v1.1.0", script);
    assert_eq!(calls.installs, 0);
    assert_eq!(run.outcome(), Some(Err(OrchestrationError::Io)));
}

#[test]
fn run_fails_without_a_home_directory() {
    let script = Script { home: None, ..Script::all_well() };
    let (run, calls) = drive("v1.1.0", script);
    assert_eq!(calls, Calls { fetches: 1, downloads: 1, extractions: 1, installs: 0 });
    assert_eq!(run.outcome(), Some(Err(OrchestrationError::HomeDirUnknown)));
}

#[test]
fn run_fails_when_the_archive_holds_no_executable() {
    let script = Script { install: Err(InstallError::SourceMissing), ..Script::all_well() };
    let (run, calls) = drive("v1.1.0", script);
    assert_eq!(calls, Calls { fetches: 1, downloads: 1, extractions: 1, installs: 1 });
    assert_eq!(run.stage(), Stage::Failed);
    assert_eq!(run.outcome(), Some(Err(OrchestrationError::SourceMissing)));
}

#[test]
fn run_fails_when_the_move_fails() {
    let script = Script { install: Err(InstallError::Io), ..Script::all_well() };
    assert_eq!(drive("v1.1.0", script).0.outcome(), Some(Err(OrchestrationError::Io)));
    let script = Script { install: Err(InstallError::Permission), ..Script::all_well() };
    assert_eq!(drive("v1.1.0", script).0.outcome(), Some(Err(OrchestrationError::Permission)));
}

#[test]
fn run_twice_ends_the_same() {
    let (first, first_calls) = drive("v1.1.0", Script::all_well());
    let (second, second_calls) = drive("v1.1.0", Script::all_well());
    assert_eq!(first.state(), second.state());
    assert_eq!(first_calls, second_calls);
    assert_eq!(first.outcome(), second.outcome());
}

#[test]
fn run_ignores_events_that_answer_nothing() {
    let run = install_duckdb("v1.1.0".to_string(), linux());
    let run = run.step(Event::Downloaded(Ok(())));
    assert_eq!(run.state(), &State::Idle);
    let run = run.step(Event::Installed(Ok(())));
    assert_eq!(run.state(), &State::Idle);
    let run = run.step(Event::Extracted { outcome: Ok(()), home: home() });
    assert_eq!(run.state(), &State::Idle);
    let run = run.step(Event::CatalogFetched(Ok(listing())));
    assert_eq!(run.state(), &State::VersionChecked { asset: archive() });
    let run = run.step(Event::CatalogFetched(Err(FetchError::Network)));
    assert_eq!(run.state(), &State::VersionChecked { asset: archive() });
    let run = run.step(Event::Installed(Err(InstallError::Io)));
    assert_eq!(run.state(), &State::VersionChecked { asset: archive() });
    let run = run.step(Event::Downloaded(Ok(()))).step(Event::Downloaded(Err(FetchError::Io)));
    assert_eq!(run.state(), &State::Downloaded);
    let run = run.step(Event::Extracted { outcome: Ok(()), home: home() });
    let run = run.step(Event::Extracted { outcome: Err(ExtractError::Io), home: None });
    assert_eq!(run.stage(), Stage::Extracted);
}

#[test]
fn finished_run_stays_as_it_is() {
    let (run, _) = drive("v1.1.0", Script::all_well());
    let run = run
        .step(Event::CatalogFetched(Ok(listing())))
        .step(Event::Downloaded(Err(FetchError::Network)))
        .step(Event::Installed(Err(InstallError::Io)));
    assert_eq!(run.stage(), Stage::Installed);
    assert_eq!(run.request(), Request::Finish);
    let (failed, _) = drive("v9.9.9", Script::all_well());
    let failed = failed
        .step(Event::CatalogFetched(Ok(listing())))
        .step(Event::Downloaded(Ok(())))
        .step(Event::Extracted { outcome: Ok(()), home: home() })
        .step(Event::Installed(Ok(())));
    assert_eq!(failed.request(), Request::Finish);
    assert_eq!(
        failed.outcome(),
        Some(Err(OrchestrationError::UnknownVersion { valid: texts(&["v1.1.0", "v1.0.0"]) }))
    );
}

#[test]
fn unfinished_run_has_no_outcome() {
    let run = install_duckdb("v1.1.0".to_string(), linux());
    let run = run.step(Event::CatalogFetched(Ok(listing())));
    assert_eq!(run.outcome(), None);
    let run = install_duckdb("v1.1.0".to_string(), linux())
        .step(Event::CatalogFetched(Ok(listing())))
        .step(Event::Downloaded(Ok(())))
        .step(Event::Extracted { outcome: Ok(()), home: home() });
    assert_eq!(run.outcome(), None);
}

#[test]
fn check_version_decides_on_the_listing() {
    assert_eq!(
        check_version("v1.1.0", linux(), listing()),
        State::VersionChecked { asset: archive() }
    );
    assert_eq!(
        check_version("v1.0.0", linux(), listing()),
        State::Failed { error: OrchestrationError::AssetNotFound }
    );
    assert_eq!(
        check_version("v1.1.0", Platform::detect("windows", "x86_64"), listing()),
        State::Failed { error: OrchestrationError::AssetNotFound }
    );
    assert_eq!(
        check_version("v2", linux(), listing()),
        State::Failed {
            error: OrchestrationError::UnknownVersion { valid: texts(&["v1.1.0", "v1.0.0"]) }
        }
    );
}

#[test]
fn extracted_event_of_a_failure_carries_no_home() {
    assert_eq!(
        Event::extracted(Err(ExtractError::CorruptArchive)),
        Event::Extracted { outcome: Err(ExtractError::CorruptArchive), home: None }
    );
    assert_eq!(
        Event::extracted(Err(ExtractError::Io)),
        Event::Extracted { outcome: Err(ExtractError::Io), home: None }
    );
}

#[test]
fn extracted_event_of_a_success_carries_the_home_of_the_environment() {
    let home = dirs::home_dir().and_then(|path| path.into_os_string().into_string().ok());
    assert_eq!(Event::extracted(Ok(())), Event::Extracted { outcome: Ok(()), home });
}
