//! Platforms, and the archive that a release publishes for each.

use crate::error::FetchError;
use crate::release::{asset_names, Asset, AssetView, Release, ReleaseView};
use crate::text::same_text;
use vstd::prelude::*;

verus! {

/// Operating systems for which archives are told apart.
#[derive(Debug, Clone, Copy, PartialEq, Eq, Structural)]
pub enum Os {
    Linux,
    MacOs,
    Other,
}

/// Processor architectures for which archives are told apart.
#[derive(Debug, Clone, Copy, PartialEq, Eq, Structural)]
pub enum Arch {
    Amd64,
    Arm64,
    Other,
}

/// The platform on which the executable is to run.
#[derive(Debug, Clone, Copy, PartialEq, Eq, Structural)]
pub struct Platform {
    pub os: Os,
    pub arch: Arch,
}

/// The operating system that the runtime calls `name`.
pub open spec fn os_named(name: Seq<char>) -> Os {
    if name == "linux"@ {
        Os::Linux
    } else if name == "macos"@ {
        Os::MacOs
    } else {
        Os::Other
    }
}

/// The architecture that the runtime calls `name`.
pub open spec fn arch_named(name: Seq<char>) -> Arch {
    if name == "x86_64"@ {
        Arch::Amd64
    } else if name == "aarch64"@ {
        Arch::Arm64
    } else {
        Arch::Other
    }
}

/// The asset of `release` that holds the archive for `platform`: the first
/// one that bears the archive name of the platform.
pub open spec fn matching_asset(release: ReleaseView, platform: Platform) -> Option<AssetView> {
    match platform.archive_name() {
        Some(name) => match asset_names(release.assets).index_of_first(name) {
            Some(at) => Some(release.assets[at]),
            None => None,
        },
        None => None,
    }
}

impl Platform {
    /// The platform that the runtime describes by the names `os` and `arch`.
    pub fn detect(os: &str, arch: &str) -> (platform: Platform)
        ensures
            platform == (Platform { os: os_named(os@), arch: arch_named(arch@) }),
    {
        let os = if same_text(os, "linux") {
            Os::Linux
        } else if same_text(os, "macos") {
            Os::MacOs
        } else {
            Os::Other
        };
        let arch = if same_text(arch, "x86_64") {
            Arch::Amd64
        } else if same_text(arch, "aarch64") {
            Arch::Arm64
        } else {
            Arch::Other
        };
        Platform { os, arch }
    }

    /// The name under which a release publishes the archive for this
    /// platform, where it publishes one.
    pub open spec fn archive_name(self) -> Option<Seq<char>> {
        match (self.os, self.arch) {
            (Os::Linux, Arch::Amd64) => Some("duckdb_cli-linux-amd64.zip"@),
            (Os::Linux, Arch::Arm64) => Some("duckdb_cli-linux-arm64.zip"@),
            (Os::MacOs, Arch::Amd64) => Some("duckdb_cli-osx-universal.zip"@),
            (Os::MacOs, Arch::Arm64) => Some("duckdb_cli-osx-universal.zip"@),
            _ => None,
        }
    }

    pub fn asset_name(&self) -> (name: Option<&'static str>)
        ensures
            match self.archive_name() {
                Some(text) => name matches Some(given) && given@ == text,
                None => name is None,
            },
    {
        match (self.os, self.arch) {
            (Os::Linux, Arch::Amd64) => Some("duckdb_cli-linux-amd64.zip"),
            (Os::Linux, Arch::Arm64) => Some("duckdb_cli-linux-arm64.zip"),
            (Os::MacOs, Arch::Amd64) => Some("duckdb_cli-osx-universal.zip"),
            (Os::MacOs, Arch::Arm64) => Some("duckdb_cli-osx-universal.zip"),
            _ => None,
        }
    }
}

/// Picks the asset of `release` that holds the archive for `platform`.
pub fn select_asset(release: &Release, platform: Platform) -> (chosen: Result<&Asset, FetchError>)
    ensures
        match matching_asset(release@, platform) {
            Some(asset) => chosen matches Ok(found) && found@ == asset,
            None => chosen == Err::<&Asset, FetchError>(FetchError::AssetNotFound),
        },
{
    match platform.asset_name() {
        Some(name) => match release.find_asset(name) {
            Some(asset) => Ok(asset),
            None => Err(FetchError::AssetNotFound),
        },
        None => Err(FetchError::AssetNotFound),
    }
}

} // verus!
