//! The last step: moving the executable into the install directory.
//!
//! The executable is moved by renaming it. Where the unpacked archive and
//! the install directory lie on different file systems a rename cannot
//! work, and the file is copied and then deleted where it came from.

use crate::error::InstallError;
use crate::target::{executable_name, InstallTarget};
use crate::text::copy_texts;
use vstd::prelude::*;

verus! {

/// A file to move, and where to: both paths by their components.
#[derive(Debug, PartialEq, Eq)]
pub struct Move {
    pub from: Vec<String>,
    pub to: Vec<String>,
}

/// What became of an attempt to move the executable.
#[derive(Debug, Clone, Copy, PartialEq, Eq, Structural)]
pub enum Attempt {
    /// The executable is in place.
    Done,
    /// The unpacked archive holds no file of the expected name.
    SourceMissing,
    /// The install directory does not exist.
    DirectoryMissing,
    /// The install directory is not writable.
    Denied,
    /// Source and destination lie on different file systems.
    CrossDevice,
    /// The move failed for another reason.
    Failed,
}

/// How the installer goes on after an attempt.
#[derive(Debug, Clone, Copy, PartialEq, Eq, Structural)]
pub enum Verdict {
    /// The executable is installed.
    Installed,
    /// Copy the file to its destination, then delete it at its source.
    CopyThenDelete,
    /// The installation has failed.
    Failed(InstallError),
}

/// The error that an attempt which neither succeeded nor crossed file
/// systems stands for.
pub open spec fn refusal(attempt: Attempt) -> InstallError {
    match attempt {
        Attempt::SourceMissing => InstallError::SourceMissing,
        Attempt::Denied => InstallError::Permission,
        _ => InstallError::Io,
    }
}

/// How the installer goes on after renaming came to `attempt`.
pub open spec fn verdict_after_rename(attempt: Attempt) -> Verdict {
    match attempt {
        Attempt::Done => Verdict::Installed,
        Attempt::CrossDevice => Verdict::CopyThenDelete,
        _ => Verdict::Failed(refusal(attempt)),
    }
}

/// How the installer ends after copying and deleting came to `attempt`.
/// There is nothing left to fall back on.
pub open spec fn verdict_after_copy(attempt: Attempt) -> Verdict {
    match attempt {
        Attempt::Done => Verdict::Installed,
        _ => Verdict::Failed(refusal(attempt)),
    }
}

/// The move that installs the executable: from the directory of the
/// unpacked archive into `install_dir`, under the same name.
pub fn install(extracted_dir: &Vec<String>, install_dir: &InstallTarget) -> (plan: Move)
    ensures
        plan.from.deep_view() == extracted_dir.deep_view().push("duckdb"@),
        plan.to.deep_view() == install_dir@.push("duckdb"@),
{
    let mut from = copy_texts(extracted_dir);
    from.push(executable_name());
    assert(from.deep_view() =~= extracted_dir.deep_view().push("duckdb"@));
    Move { from, to: install_dir.executable() }
}

/// Decides how to go on after the attempt to rename the executable.
pub fn after_rename(attempt: Attempt) -> (verdict: Verdict)
    ensures
        verdict == verdict_after_rename(attempt),
{
    match attempt {
        Attempt::Done => Verdict::Installed,
        Attempt::CrossDevice => Verdict::CopyThenDelete,
        Attempt::SourceMissing => Verdict::Failed(InstallError::SourceMissing),
        Attempt::Denied => Verdict::Failed(InstallError::Permission),
        Attempt::DirectoryMissing => Verdict::Failed(InstallError::Io),
        Attempt::Failed => Verdict::Failed(InstallError::Io),
    }
}

/// Decides how the installation ended after the attempt to copy the
/// executable and delete it at its source.
pub fn after_copy(attempt: Attempt) -> (verdict: Verdict)
    ensures
        verdict == verdict_after_copy(attempt),
{
    match attempt {
        Attempt::Done => Verdict::Installed,
        Attempt::SourceMissing => Verdict::Failed(InstallError::SourceMissing),
        Attempt::Denied => Verdict::Failed(InstallError::Permission),
        Attempt::DirectoryMissing => Verdict::Failed(InstallError::Io),
        Attempt::CrossDevice => Verdict::Failed(InstallError::Io),
        Attempt::Failed => Verdict::Failed(InstallError::Io),
    }
}

} // verus!
