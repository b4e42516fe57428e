//! The failures of an installation, by component.

use crate::text::{join, joined};
use vstd::prelude::*;
use vstd::string::StringExecFns;

verus! {

/// Why the release listing or an archive could not be fetched.
#[derive(Debug, Clone, Copy, PartialEq, Eq, Structural)]
pub enum FetchError {
    /// The transport failed.
    Network,
    /// The remote metadata was malformed.
    Parse,
    /// The release has no archive for the platform.
    AssetNotFound,
    /// The temporary file could not be created or written.
    Io,
}

/// Why an archive could not be unpacked.
#[derive(Debug, Clone, Copy, PartialEq, Eq, Structural)]
pub enum ExtractError {
    /// The archive is not a well-formed zip file.
    CorruptArchive,
    /// An entry could not be written.
    Io,
}

/// Why the executable could not be put in place.
#[derive(Debug, Clone, Copy, PartialEq, Eq, Structural)]
pub enum InstallError {
    /// The unpacked archive holds no executable of the expected name.
    SourceMissing,
    /// The install directory is missing, or the move failed.
    Io,
    /// The install directory is not writable.
    Permission,
}

/// The catalog has no release with the tag asked for.
#[derive(Debug, Clone, Copy, PartialEq, Eq, Structural)]
pub struct NotFoundError;

/// Why a run ended without installing anything.
#[derive(Debug, PartialEq, Eq)]
pub enum OrchestrationError {
    Network,
    Parse,
    /// The requested version is not in the catalog; `valid` lists the
    /// versions that are, most recent first.
    UnknownVersion { valid: Vec<String> },
    AssetNotFound,
    CorruptArchive,
    Io,
    SourceMissing,
    Permission,
    /// The home directory of the user could not be determined.
    HomeDirUnknown,
}

/// What an [`OrchestrationError`] stands for in contracts.
pub enum Failure {
    Network,
    Parse,
    UnknownVersion { valid: Seq<Seq<char>> },
    AssetNotFound,
    CorruptArchive,
    Io,
    SourceMissing,
    Permission,
    HomeDirUnknown,
}

impl View for OrchestrationError {
    type V = Failure;

    open spec fn view(&self) -> Failure {
        match self {
            OrchestrationError::Network => Failure::Network,
            OrchestrationError::Parse => Failure::Parse,
            OrchestrationError::UnknownVersion { valid } => Failure::UnknownVersion {
                valid: valid.deep_view(),
            },
            OrchestrationError::AssetNotFound => Failure::AssetNotFound,
            OrchestrationError::CorruptArchive => Failure::CorruptArchive,
            OrchestrationError::Io => Failure::Io,
            OrchestrationError::SourceMissing => Failure::SourceMissing,
            OrchestrationError::Permission => Failure::Permission,
            OrchestrationError::HomeDirUnknown => Failure::HomeDirUnknown,
        }
    }
}

/// The failure of a run whose fetch failed with `error`.
pub open spec fn fetch_failure(error: FetchError) -> Failure {
    match error {
        FetchError::Network => Failure::Network,
        FetchError::Parse => Failure::Parse,
        FetchError::AssetNotFound => Failure::AssetNotFound,
        FetchError::Io => Failure::Io,
    }
}

/// The failure of a run whose extraction failed with `error`.
pub open spec fn extract_failure(error: ExtractError) -> Failure {
    match error {
        ExtractError::CorruptArchive => Failure::CorruptArchive,
        ExtractError::Io => Failure::Io,
    }
}

/// The failure of a run whose final move failed with `error`.
pub open spec fn install_failure(error: InstallError) -> Failure {
    match error {
        InstallError::SourceMissing => Failure::SourceMissing,
        InstallError::Io => Failure::Io,
        InstallError::Permission => Failure::Permission,
    }
}

/// The message that tells the user of `failure`. For an unknown version it
/// lists the versions that can be asked for.
pub open spec fn message_of(failure: Failure) -> Seq<char> {
    match failure {
        Failure::Network => "the release server could not be reached"@,
        Failure::Parse => "the release listing is malformed"@,
        Failure::UnknownVersion { valid } => "the requested version is not available; choose one of: "@
            + joined(valid, ", "@),
        Failure::AssetNotFound => "the release has no archive for this platform"@,
        Failure::CorruptArchive => "the downloaded archive is corrupt"@,
        Failure::Io => "a file could not be read, written or moved"@,
        Failure::SourceMissing => "the archive holds no duckdb executable"@,
        Failure::Permission => "the install directory is not writable"@,
        Failure::HomeDirUnknown => "the home directory could not be found"@,
    }
}

impl OrchestrationError {
    /// The message that tells the user of this failure.
    pub fn message(&self) -> (message: String)
        ensures
            message@ == message_of(self@),
    {
        match self {
            OrchestrationError::Network => "the release server could not be reached".to_owned(),
            OrchestrationError::Parse => "the release listing is malformed".to_owned(),
            OrchestrationError::UnknownVersion { valid } => {
                let mut message =
                    "the requested version is not available; choose one of: ".to_owned();
                let list = join(valid, ", ");
                message.append(list.as_str());
                message
            },
            OrchestrationError::AssetNotFound => {
                "the release has no archive for this platform".to_owned()
            },
            OrchestrationError::CorruptArchive => "the downloaded archive is corrupt".to_owned(),
            OrchestrationError::Io => "a file could not be read, written or moved".to_owned(),
            OrchestrationError::SourceMissing => "the archive holds no duckdb executable".to_owned(),
            OrchestrationError::Permission => "the install directory is not writable".to_owned(),
            OrchestrationError::HomeDirUnknown => "the home directory could not be found".to_owned(),
        }
    }

    pub fn from_fetch(error: FetchError) -> (failure: OrchestrationError)
        ensures
            failure@ == fetch_failure(error),
    {
        match error {
            FetchError::Network => OrchestrationError::Network,
            FetchError::Parse => OrchestrationError::Parse,
            FetchError::AssetNotFound => OrchestrationError::AssetNotFound,
            FetchError::Io => OrchestrationError::Io,
        }
    }

    pub fn from_extract(error: ExtractError) -> (failure: OrchestrationError)
        ensures
            failure@ == extract_failure(error),
    {
        match error {
            ExtractError::CorruptArchive => OrchestrationError::CorruptArchive,
            ExtractError::Io => OrchestrationError::Io,
        }
    }

    pub fn from_install(error: InstallError) -> (failure: OrchestrationError)
        ensures
            failure@ == install_failure(error),
    {
        match error {
            InstallError::SourceMissing => OrchestrationError::SourceMissing,
            InstallError::Io => OrchestrationError::Io,
            InstallError::Permission => OrchestrationError::Permission,
        }
    }
}

} // verus!
