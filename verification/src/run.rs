//! The installation run: from a requested version to the installed
//! executable, one outside step at a time.
//!
//! The run decides; its driver acts. In each state the run names the one
//! request that is in flight, the driver carries it out and reports the
//! outcome as an event, and the run moves on. The install directory is
//! touched by the last request alone, the temporary scope is created by the
//! download and released when the run has finished.

use crate::catalog::{release_tags, unique_tags, ReleaseCatalog};
use crate::error::{
    extract_failure, fetch_failure, install_failure, ExtractError, Failure, FetchError,
    InstallError, OrchestrationError,
};
use crate::platform::{matching_asset, select_asset, Platform};
use crate::release::{Asset, AssetView, Release, ReleaseView};
use crate::target::{executable_name, home_directory, install_directory, InstallTarget};
use vstd::prelude::*;

verus! {

/// How far a run has come.
#[derive(Debug, Clone, Copy, PartialEq, Eq, Structural)]
pub enum Stage {
    /// Nothing is known yet: the release listing is being fetched.
    Idle,
    /// The requested version is in the catalog and has an archive for the
    /// platform: the archive is being downloaded.
    VersionChecked,
    /// The archive is in the temporary scope: it is being unpacked.
    Downloaded,
    /// The archive is unpacked and the install directory is known: the
    /// executable is being moved into place.
    Extracted,
    /// The executable is in place.
    Installed,
    /// The run was given up.
    Failed,
}

/// The state of a run, with what the request in flight needs.
#[derive(Debug, PartialEq, Eq)]
pub enum State {
    Idle,
    VersionChecked { asset: Asset },
    Downloaded,
    Extracted { target: InstallTarget },
    Installed { target: InstallTarget },
    Failed { error: OrchestrationError },
}

/// What a [`State`] stands for in contracts.
pub enum StateView {
    Idle,
    VersionChecked { asset: AssetView },
    Downloaded,
    Extracted { directory: Seq<Seq<char>> },
    Installed { directory: Seq<Seq<char>> },
    Failed { error: Failure },
}

impl View for State {
    type V = StateView;

    open spec fn view(&self) -> StateView {
        match self {
            State::Idle => StateView::Idle,
            State::VersionChecked { asset } => StateView::VersionChecked { asset: asset@ },
            State::Downloaded => StateView::Downloaded,
            State::Extracted { target } => StateView::Extracted { directory: target@ },
            State::Installed { target } => StateView::Installed { directory: target@ },
            State::Failed { error } => StateView::Failed { error: error@ },
        }
    }
}

/// What the driver of a run is to do next.
#[derive(Debug, PartialEq, Eq)]
pub enum Request {
    /// Fetch the listing of the published releases.
    FetchCatalog,
    /// Create the temporary scope and download `asset` into it.
    Download { asset: Asset },
    /// Unpack the downloaded archive inside the temporary scope.
    Extract,
    /// Move the file named `executable` from the unpacked archive into the
    /// directory `target`, in place of whatever has that name there.
    Install { target: InstallTarget, executable: String },
    /// Release the temporary scope, if one was created, and report the
    /// outcome of the run.
    Finish,
}

/// What a [`Request`] stands for in contracts.
pub enum RequestView {
    FetchCatalog,
    Download { asset: AssetView },
    Extract,
    Install { directory: Seq<Seq<char>>, executable: Seq<char> },
    Finish,
}

impl View for Request {
    type V = RequestView;

    open spec fn view(&self) -> RequestView {
        match self {
            Request::FetchCatalog => RequestView::FetchCatalog,
            Request::Download { asset } => RequestView::Download { asset: asset@ },
            Request::Extract => RequestView::Extract,
            Request::Install { target, executable } => RequestView::Install {
                directory: target@,
                executable: executable@,
            },
            Request::Finish => RequestView::Finish,
        }
    }
}

/// The outcome of a request, as its driver reports it.
#[derive(Debug, PartialEq, Eq)]
pub enum Event {
    /// The listing that was fetched, most recent release first.
    CatalogFetched(Result<Vec<Release>, FetchError>),
    Downloaded(Result<(), FetchError>),
    /// The outcome of unpacking and, where that went well, the home
    /// directory of the user as it was found afterwards.
    Extracted { outcome: Result<(), ExtractError>, home: Option<String> },
    Installed(Result<(), InstallError>),
}

/// What an [`Event`] stands for in contracts.
pub enum EventView {
    CatalogFetched(Result<Seq<ReleaseView>, FetchError>),
    Downloaded(Result<(), FetchError>),
    Extracted { outcome: Result<(), ExtractError>, home: Option<Seq<char>> },
    Installed(Result<(), InstallError>),
}

impl View for Event {
    type V = EventView;

    open spec fn view(&self) -> EventView {
        match self {
            Event::CatalogFetched(Ok(releases)) => EventView::CatalogFetched(
                Ok(releases.deep_view()),
            ),
            Event::CatalogFetched(Err(error)) => EventView::CatalogFetched(Err(*error)),
            Event::Downloaded(outcome) => EventView::Downloaded(*outcome),
            Event::Extracted { outcome, home: Some(path) } => EventView::Extracted {
                outcome: *outcome,
                home: Some(path@),
            },
            Event::Extracted { outcome, home: None } => EventView::Extracted {
                outcome: *outcome,
                home: None,
            },
            Event::Installed(outcome) => EventView::Installed(*outcome),
        }
    }
}

/// One installation of one requested version on one platform.
#[derive(Debug)]
pub struct InstallRun {
    requested: String,
    platform: Platform,
    state: State,
}

/// What an [`InstallRun`] stands for in contracts.
pub struct RunView {
    pub requested: Seq<char>,
    pub platform: Platform,
    pub state: StateView,
}

impl View for InstallRun {
    type V = RunView;

    closed spec fn view(&self) -> RunView {
        RunView { requested: self.requested@, platform: self.platform, state: self.state@ }
    }
}

/// The state in which a listing of `releases` leaves a run for `requested`
/// on `platform`: a listing with a repeated tag is malformed, a version
/// that the listing lacks is unknown, and a known version needs an archive
/// for the platform.
pub open spec fn checked(
    requested: Seq<char>,
    platform: Platform,
    releases: Seq<ReleaseView>,
) -> StateView {
    if !unique_tags(releases) {
        StateView::Failed { error: Failure::Parse }
    } else {
        match release_tags(releases).index_of_first(requested) {
            Some(at) => match matching_asset(releases[at], platform) {
                Some(asset) => StateView::VersionChecked { asset },
                None => StateView::Failed { error: Failure::AssetNotFound },
            },
            None => StateView::Failed {
                error: Failure::UnknownVersion { valid: release_tags(releases) },
            },
        }
    }
}

/// The state that follows `state` on `event`. An event that does not answer
/// the request in flight changes nothing, and neither does any event once
/// the run has finished.
pub open spec fn next_state(
    requested: Seq<char>,
    platform: Platform,
    state: StateView,
    event: EventView,
) -> StateView {
    match (state, event) {
        (StateView::Idle, EventView::CatalogFetched(Ok(releases))) => checked(
            requested,
            platform,
            releases,
        ),
        (StateView::Idle, EventView::CatalogFetched(Err(error))) => StateView::Failed {
            error: fetch_failure(error),
        },
        (StateView::VersionChecked { .. }, EventView::Downloaded(Ok(_))) => StateView::Downloaded,
        (StateView::VersionChecked { .. }, EventView::Downloaded(Err(error))) => StateView::Failed {
            error: fetch_failure(error),
        },
        (
            StateView::Downloaded,
            EventView::Extracted { outcome: Ok(_), home: Some(home) },
        ) => StateView::Extracted { directory: install_directory(home) },
        (StateView::Downloaded, EventView::Extracted { outcome: Ok(_), home: None }) => {
            StateView::Failed { error: Failure::HomeDirUnknown }
        },
        (StateView::Downloaded, EventView::Extracted { outcome: Err(error), .. }) => {
            StateView::Failed { error: extract_failure(error) }
        },
        (StateView::Extracted { directory }, EventView::Installed(Ok(_))) => StateView::Installed {
            directory,
        },
        (StateView::Extracted { .. }, EventView::Installed(Err(error))) => StateView::Failed {
            error: install_failure(error),
        },
        (state, _) => state,
    }
}

/// The run that follows `run` on `event`.
pub open spec fn run_step(run: RunView, event: EventView) -> RunView {
    RunView { state: next_state(run.requested, run.platform, run.state, event), ..run }
}

/// The request that is in flight in `state`.
pub open spec fn request_in(state: StateView) -> RequestView {
    match state {
        StateView::Idle => RequestView::FetchCatalog,
        StateView::VersionChecked { asset } => RequestView::Download { asset },
        StateView::Downloaded => RequestView::Extract,
        StateView::Extracted { directory } => RequestView::Install {
            directory,
            executable: "duckdb"@,
        },
        StateView::Installed { .. } => RequestView::Finish,
        StateView::Failed { .. } => RequestView::Finish,
    }
}

/// How far a run in `state` has come.
pub open spec fn stage_of(state: StateView) -> Stage {
    match state {
        StateView::Idle => Stage::Idle,
        StateView::VersionChecked { .. } => Stage::VersionChecked,
        StateView::Downloaded => Stage::Downloaded,
        StateView::Extracted { .. } => Stage::Extracted,
        StateView::Installed { .. } => Stage::Installed,
        StateView::Failed { .. } => Stage::Failed,
    }
}

/// Checks the requested version against a fetched listing and picks the
/// archive to download.
pub fn check_version(requested: &str, platform: Platform, releases: Vec<Release>) -> (state: State)
    ensures
        state@ == checked(requested@, platform, releases.deep_view()),
{
    match ReleaseCatalog::new(releases) {
        Ok(catalog) => match catalog.resolve(requested) {
            Ok(release) => match select_asset(release, platform) {
                Ok(asset) => State::VersionChecked { asset: asset.clone() },
                Err(error) => State::Failed { error: OrchestrationError::from_fetch(error) },
            },
            Err(_) => State::Failed {
                error: OrchestrationError::UnknownVersion { valid: catalog.list() },
            },
        },
        Err(error) => State::Failed { error: OrchestrationError::from_fetch(error) },
    }
}

/// Begins the installation of `requested_version` on `platform`. The run
/// starts idle: its driver fetches the release listing first.
pub fn install_duckdb(requested_version: String, platform: Platform) -> (run: InstallRun)
    ensures
        run@ == (RunView {
            requested: requested_version@,
            platform,
            state: StateView::Idle,
        }),
{
    InstallRun { requested: requested_version, platform, state: State::Idle }
}

impl Event {
    /// The event that reports `outcome` for the unpacking. Where the
    /// unpacking went well, the home directory is looked up now; what is
    /// found depends on the environment of the process.
    pub fn extracted(outcome: Result<(), ExtractError>) -> (event: Event)
        ensures
            event@ matches EventView::Extracted { outcome: reported, home } && reported == outcome
                && (outcome is Err ==> home is None),
    {
        match outcome {
            Ok(_) => Event::Extracted { outcome, home: home_directory() },
            Err(_) => Event::Extracted { outcome, home: None },
        }
    }
}

impl InstallRun {
    /// The version that the run is to install.
    pub fn requested(&self) -> (tag: &String)
        ensures
            tag@ == self@.requested,
    {
        &self.requested
    }

    /// The platform that the run installs for.
    pub fn platform(&self) -> (platform: Platform)
        ensures
            platform == self@.platform,
    {
        self.platform
    }

    /// The state of the run.
    pub fn state(&self) -> (state: &State)
        ensures
            state@ == self@.state,
    {
        &self.state
    }

    /// How far the run has come.
    pub fn stage(&self) -> (stage: Stage)
        ensures
            stage == stage_of(self@.state),
    {
        match &self.state {
            State::Idle => Stage::Idle,
            State::VersionChecked { .. } => Stage::VersionChecked,
            State::Downloaded => Stage::Downloaded,
            State::Extracted { .. } => Stage::Extracted,
            State::Installed { .. } => Stage::Installed,
            State::Failed { .. } => Stage::Failed,
        }
    }

    /// What the driver is to do now.
    pub fn request(&self) -> (request: Request)
        ensures
            request@ == request_in(self@.state),
    {
        match &self.state {
            State::Idle => Request::FetchCatalog,
            State::VersionChecked { asset } => Request::Download { asset: asset.clone() },
            State::Downloaded => Request::Extract,
            State::Extracted { target } => Request::Install {
                target: target.clone(),
                executable: executable_name(),
            },
            State::Installed { .. } => Request::Finish,
            State::Failed { .. } => Request::Finish,
        }
    }

    /// The outcome of a run that has finished: the path of the installed
    /// executable, by its components, or the failure. A run that has not
    /// finished has none.
    pub fn outcome(self) -> (outcome: Option<Result<Vec<String>, OrchestrationError>>)
        ensures
            match self@.state {
                StateView::Installed { directory } => outcome matches Some(Ok(path))
                    && path.deep_view() == directory.push("duckdb"@),
                StateView::Failed { error } => outcome matches Some(Err(failure)) && failure@
                    == error,
                _ => outcome is None,
            },
    {
        match self.state {
            State::Installed { target } => Some(Ok(target.executable())),
            State::Failed { error } => Some(Err(error)),
            _ => None,
        }
    }

    /// Takes the outcome of the request in flight and moves on.
    pub fn step(self, event: Event) -> (next: InstallRun)
        ensures
            next@ == run_step(self@, event@),
    {
        let InstallRun { requested, platform, state } = self;
        let state = match (state, event) {
            (State::Idle, Event::CatalogFetched(Ok(releases))) => check_version(
                requested.as_str(),
                platform,
                releases,
            ),
            (State::Idle, Event::CatalogFetched(Err(error))) => State::Failed {
                error: OrchestrationError::from_fetch(error),
            },
            (State::VersionChecked { .. }, Event::Downloaded(Ok(_))) => State::Downloaded,
            (State::VersionChecked { .. }, Event::Downloaded(Err(error))) => State::Failed {
                error: OrchestrationError::from_fetch(error),
            },
            (State::Downloaded, Event::Extracted { outcome: Ok(_), home }) => {
                match InstallTarget::resolve(home) {
                    Ok(target) => State::Extracted { target },
                    Err(error) => State::Failed { error },
                }
            },
            (State::Downloaded, Event::Extracted { outcome: Err(error), .. }) => State::Failed {
                error: OrchestrationError::from_extract(error),
            },
            (State::Extracted { target }, Event::Installed(Ok(_))) => State::Installed { target },
            (State::Extracted { .. }, Event::Installed(Err(error))) => State::Failed {
                error: OrchestrationError::from_install(error),
            },
            (state, _) => state,
        };
        InstallRun { requested, platform, state }
    }
}

} // verus!
