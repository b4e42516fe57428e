//! The place of the installed executable.

use crate::error::{Failure, OrchestrationError};
use crate::text::copy_texts;
use vstd::prelude::*;

verus! {

/// The install directory of the user whose home directory is `home`: the
/// home directory, then the components of the fixed path below it.
pub open spec fn install_directory(home: Seq<char>) -> Seq<Seq<char>> {
    seq![home, ".local"@, "bin"@]
}

/// File name of the DuckDB executable, both inside an unpacked release
/// archive and in the install directory.
pub fn executable_name() -> (name: String)
    ensures
        name@ == "duckdb"@,
{
    "duckdb".to_owned()
}

/// The directory in which the executable must reside, as the components of
/// its path: a base directory, then the names of the directories to go down
/// from there.
#[derive(Debug, PartialEq, Eq)]
pub struct InstallTarget {
    pub directory: Vec<String>,
}

impl View for InstallTarget {
    type V = Seq<Seq<char>>;

    open spec fn view(&self) -> Seq<Seq<char>> {
        self.directory.deep_view()
    }
}

impl Clone for InstallTarget {
    fn clone(&self) -> (copy: InstallTarget)
        ensures
            copy@ == self@,
    {
        let directory = copy_texts(&self.directory);
        InstallTarget { directory }
    }
}

/// The home directory of the user, from `dirs::home_dir`. What comes back
/// depends on the environment of the process, so nothing is claimed of it.
/// A home directory whose path is not valid Unicode is given as `None`.
#[verifier::external_body]
pub(crate) fn home_directory() -> (home: Option<String>) {
    match dirs::home_dir() {
        Some(path) => path.into_os_string().into_string().ok(),
        None => None,
    }
}

impl InstallTarget {
    /// The install directory below `home`, which cannot be told where no
    /// home directory is known.
    pub fn resolve(home: Option<String>) -> (resolved: Result<InstallTarget, OrchestrationError>)
        ensures
            match home {
                Some(path) => resolved matches Ok(target) && target@ == install_directory(path@),
                None => resolved matches Err(error) && error@ == Failure::HomeDirUnknown,
            },
    {
        match home {
            Some(path) => {
                let mut directory: Vec<String> = Vec::new();
                directory.push(path);
                directory.push(".local".to_owned());
                directory.push("bin".to_owned());
                assert(directory.deep_view() =~= install_directory(path@));
                Ok(InstallTarget { directory })
            },
            None => Err(OrchestrationError::HomeDirUnknown),
        }
    }

    /// The install directory of the current user: `resolve` on the home
    /// directory that the environment gives.
    pub fn locate() -> (resolved: Result<InstallTarget, OrchestrationError>)
        ensures
            match resolved {
                Ok(target) => exists|home: Seq<char>| target@ == install_directory(home),
                Err(error) => error@ == Failure::HomeDirUnknown,
            },
    {
        InstallTarget::resolve(home_directory())
    }

    /// The path of the installed executable: the directory, then the name of
    /// the executable.
    pub fn executable(&self) -> (path: Vec<String>)
        ensures
            path.deep_view() == self@.push("duckdb"@),
    {
        let mut path = copy_texts(&self.directory);
        path.push(executable_name());
        assert(path.deep_view() =~= self@.push("duckdb"@));
        path
    }
}

} // verus!
