use duckup::error::{InstallError, OrchestrationError};
use duckup::installer::{after_copy, after_rename, install, Attempt, Verdict};
use duckup::target::{executable_name, InstallTarget};

fn texts(items: &[&str]) -> Vec<String> {
    items.iter().map(|item| item.to_string()).collect()
}

#[test]
fn executable_is_called_duckdb() {
    assert_eq!(executable_name(), "duckdb");
}

#[test]
fn resolve_puts_the_target_below_the_home_directory() {
    let target = InstallTarget::resolve(Some("/home/alice".to_string())).unwrap();
    assert_eq!(target.directory, texts(&["/home/alice", ".local", "bin"]));
    assert_eq!(target.executable(), texts(&["/home/alice", ".local", "bin", "duckdb"]));
}

#[test]
fn resolve_fails_without_a_home_directory() {
    assert_eq!(InstallTarget::resolve(None), Err(OrchestrationError::HomeDirUnknown));
}

#[test]
fn locate_uses_the_home_directory_of_the_environment() {
    let home = dirs::home_dir().and_then(|path| path.into_os_string().into_string().ok());
    match (InstallTarget::locate(), home) {
        (Ok(target), Some(home)) => {
            assert_eq!(target.directory, vec![home, ".local".to_string(), "bin".to_string()]);
        }
        (Err(error), None) => assert_eq!(error, OrchestrationError::HomeDirUnknown),
        (located, home) => panic!("located {:?} with home {:?}", located, home),
    }
}

#[test]
fn target_clone_is_equal() {
    let target = InstallTarget { directory: texts(&["/opt", "tools"]) };
    assert_eq!(target.clone(), target);
    assert_eq!(target.executable(), texts(&["/opt", "tools", "duckdb"]));
    let bare = InstallTarget { directory: vec![] };
    assert_eq!(bare.clone(), bare);
    assert_eq!(bare.executable(), texts(&["duckdb"]));
}

#[test]
fn install_moves_the_executable_under_the_same_name() {
    let target = InstallTarget::resolve(Some("/home/alice".to_string())).unwrap();
    let plan = install(&texts(&["/tmp/scope"]), &target);
    assert_eq!(plan.from, texts(&["/tmp/scope", "duckdb"]));
    assert_eq!(plan.to, texts(&["/home/alice", ".local", "bin", "duckdb"]));
}

#[test]
fn rename_that_worked_installs() {
    assert_eq!(after_rename(Attempt::Done), Verdict::Installed);
}

#[test]
fn rename_across_file_systems_falls_back_to_copy() {
    assert_eq!(after_rename(Attempt::CrossDevice), Verdict::CopyThenDelete);
}

#[test]
fn rename_failures_name_their_error() {
    assert_eq!(after_rename(Attempt::SourceMissing), Verdict::Failed(InstallError::SourceMissing));
    assert_eq!(after_rename(Attempt::DirectoryMissing), Verdict::Failed(InstallError::Io));
    assert_eq!(after_rename(Attempt::Denied), Verdict::Failed(InstallError::Permission));
    assert_eq!(after_rename(Attempt::Failed), Verdict::Failed(InstallError::Io));
}

#[test]
fn copy_has_no_further_fallback() {
    assert_eq!(after_copy(Attempt::Done), Verdict::Installed);
    assert_eq!(after_copy(Attempt::CrossDevice), Verdict::Failed(InstallError::Io));
    assert_eq!(after_copy(Attempt::SourceMissing), Verdict::Failed(InstallError::SourceMissing));
    assert_eq!(after_copy(Attempt::DirectoryMissing), Verdict::Failed(InstallError::Io));
    assert_eq!(after_copy(Attempt::Denied), Verdict::Failed(InstallError::Permission));
    assert_eq!(after_copy(Attempt::Failed), Verdict::Failed(InstallError::Io));
}
