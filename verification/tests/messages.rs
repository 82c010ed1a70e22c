use dotty::error::{ConfigProblem, IoProblem, RemoteProblem, SyncError};

#[test]
fn config_problems_name_the_missing_field() {
    assert_eq!(
        SyncError::ConfigInvalid(ConfigProblem::MissingRepository).message(),
        "GitHub repository URL is missing in the configuration"
    );
    assert_eq!(
        SyncError::ConfigInvalid(ConfigProblem::MissingToken).message(),
        "GitHub token is missing in the configuration"
    );
    assert_eq!(
        SyncError::ConfigInvalid(ConfigProblem::ZeroInterval).message(),
        "Sync interval must be greater than 0"
    );
}

#[test]
fn path_and_profile_errors_have_their_texts() {
    assert_eq!(SyncError::ProfileNotFound.message(), "Profile not found");
    assert_eq!(SyncError::PathOutsideHome.message(), "Path is not in home directory");
    assert_eq!(SyncError::PathUnresolvable.message(), "Failed to canonicalize path");
}

#[test]
fn io_failures_name_the_operation() {
    assert_eq!(
        SyncError::IOFailure(IoProblem::HomeUnavailable).message(),
        "Failed to get home directory"
    );
    assert_eq!(SyncError::IOFailure(IoProblem::Backup).message(), "Failed to create backup");
    assert_eq!(SyncError::IOFailure(IoProblem::Copy).message(), "Failed to copy file");
    assert_eq!(SyncError::IOFailure(IoProblem::Symlink).message(), "Failed to create symlink");
    assert_eq!(
        SyncError::IOFailure(IoProblem::Metadata).message(),
        "Failed to get source file metadata"
    );
    assert_eq!(
        SyncError::IOFailure(IoProblem::SetPermissions).message(),
        "Failed to set permissions on destination file"
    );
    assert_eq!(
        SyncError::IOFailure(IoProblem::CopyToMirror).message(),
        "Failed to copy file to repo"
    );
}

#[test]
fn remote_failures_name_the_step() {
    assert_eq!(
        SyncError::RemoteFailure(RemoteProblem::Open).message(),
        "Failed to open existing repository"
    );
    assert_eq!(
        SyncError::RemoteFailure(RemoteProblem::Clone).message(),
        "Failed to clone repository"
    );
    assert_eq!(
        SyncError::RemoteFailure(RemoteProblem::Stage).message(),
        "Failed to add files to index"
    );
    assert_eq!(
        SyncError::RemoteFailure(RemoteProblem::Commit).message(),
        "Failed to create commit"
    );
    assert_eq!(SyncError::RemoteFailure(RemoteProblem::Push).message(), "Failed to push changes");
}

#[test]
fn trigger_failures_have_their_texts() {
    assert_eq!(SyncError::WatchSetupFailure.message(), "Failed to watch path");
    assert_eq!(SyncError::ScheduleFailure.message(), "Failed to set up schedule");
}
