//! The error kinds that the engine reports.

use vstd::prelude::*;

verus! {

/// Which required configuration field is missing or zero.
#[derive(Clone, Copy, Debug, PartialEq, Eq, Structural)]
pub enum ConfigProblem {
    /// The remote repository address is empty.
    MissingRepository,
    /// The authentication token is empty.
    MissingToken,
    /// The sync interval is zero.
    ZeroInterval,
}

/// The file operation that failed.
#[derive(Clone, Copy, Debug, PartialEq, Eq, Structural)]
pub enum IoProblem {
    /// The user's home directory could not be determined.
    HomeUnavailable,
    /// Copying an existing destination to its backup path failed.
    Backup,
    /// Copying the source over the destination failed.
    Copy,
    /// Creating the symbolic link failed.
    Symlink,
    /// Reading the source's metadata failed.
    Metadata,
    /// Setting the destination's permission bits failed.
    SetPermissions,
    /// Copying a tracked file into the mirror, or creating the directories
    /// above it, failed.
    CopyToMirror,
}

/// The step of the remote mirror that failed.
#[derive(Clone, Copy, Debug, PartialEq, Eq, Structural)]
pub enum RemoteProblem {
    /// Opening the existing working copy failed.
    Open,
    /// Cloning the remote into a new working copy failed.
    Clone,
    /// Staging the working copy failed.
    Stage,
    /// The working copy has no commit on which a new one could be based,
    /// or the commit could not be written.
    Commit,
    /// Pushing to the remote failed.
    Push,
}

/// An error that aborts the operation in which it occurs.
#[derive(Clone, Copy, Debug, PartialEq, Eq, Structural)]
pub enum SyncError {
    /// A required configuration field is missing or zero.
    ConfigInvalid(ConfigProblem),
    /// The named profile does not exist.
    ProfileNotFound,
    /// The path to add or remove does not lie under the home directory.
    PathOutsideHome,
    /// The path could not be resolved to a real location.
    PathUnresolvable,
    /// A file operation failed.
    IOFailure(IoProblem),
    /// A step of the remote mirror failed.
    RemoteFailure(RemoteProblem),
    /// A file-change watch could not be set up.
    WatchSetupFailure,
    /// A schedule could not be set up.
    ScheduleFailure,
}

impl SyncError {
    /// The text that tells the user what went wrong.
    pub open spec fn text(self) -> Seq<char> {
        match self {
            SyncError::ConfigInvalid(ConfigProblem::MissingRepository) =>
                "GitHub repository URL is missing in the configuration"@,
            SyncError::ConfigInvalid(ConfigProblem::MissingToken) =>
                "GitHub token is missing in the configuration"@,
            SyncError::ConfigInvalid(ConfigProblem::ZeroInterval) =>
                "Sync interval must be greater than 0"@,
            SyncError::ProfileNotFound => "Profile not found"@,
            SyncError::PathOutsideHome => "Path is not in home directory"@,
            SyncError::PathUnresolvable => "Failed to canonicalize path"@,
            SyncError::IOFailure(IoProblem::HomeUnavailable) => "Failed to get home directory"@,
            SyncError::IOFailure(IoProblem::Backup) => "Failed to create backup"@,
            SyncError::IOFailure(IoProblem::Copy) => "Failed to copy file"@,
            SyncError::IOFailure(IoProblem::Symlink) => "Failed to create symlink"@,
            SyncError::IOFailure(IoProblem::Metadata) => "Failed to get source file metadata"@,
            SyncError::IOFailure(IoProblem::SetPermissions) =>
                "Failed to set permissions on destination file"@,
            SyncError::IOFailure(IoProblem::CopyToMirror) => "Failed to copy file to repo"@,
            SyncError::RemoteFailure(RemoteProblem::Open) => "Failed to open existing repository"@,
            SyncError::RemoteFailure(RemoteProblem::Clone) => "Failed to clone repository"@,
            SyncError::RemoteFailure(RemoteProblem::Stage) => "Failed to add files to index"@,
            SyncError::RemoteFailure(RemoteProblem::Commit) => "Failed to create commit"@,
            SyncError::RemoteFailure(RemoteProblem::Push) => "Failed to push changes"@,
            SyncError::WatchSetupFailure => "Failed to watch path"@,
            SyncError::ScheduleFailure => "Failed to set up schedule"@,
        }
    }

    /// The text that tells the user what went wrong.
    pub fn message(&self) -> (r: String)
        ensures
            r@ == self.text(),
    {
        match self {
            SyncError::ConfigInvalid(ConfigProblem::MissingRepository) =>
                "GitHub repository URL is missing in the configuration".to_string(),
            SyncError::ConfigInvalid(ConfigProblem::MissingToken) =>
                "GitHub token is missing in the configuration".to_string(),
            SyncError::ConfigInvalid(ConfigProblem::ZeroInterval) =>
                "Sync interval must be greater than 0".to_string(),
            SyncError::ProfileNotFound => "Profile not found".to_string(),
            SyncError::PathOutsideHome => "Path is not in home directory".to_string(),
            SyncError::PathUnresolvable => "Failed to canonicalize path".to_string(),
            SyncError::IOFailure(IoProblem::HomeUnavailable) =>
                "Failed to get home directory".to_string(),
            SyncError::IOFailure(IoProblem::Backup) => "Failed to create backup".to_string(),
            SyncError::IOFailure(IoProblem::Copy) => "Failed to copy file".to_string(),
            SyncError::IOFailure(IoProblem::Symlink) => "Failed to create symlink".to_string(),
            SyncError::IOFailure(IoProblem::Metadata) =>
                "Failed to get source file metadata".to_string(),
            SyncError::IOFailure(IoProblem::SetPermissions) =>
                "Failed to set permissions on destination file".to_string(),
            SyncError::IOFailure(IoProblem::CopyToMirror) =>
                "Failed to copy file to repo".to_string(),
            SyncError::RemoteFailure(RemoteProblem::Open) =>
                "Failed to open existing repository".to_string(),
            SyncError::RemoteFailure(RemoteProblem::Clone) =>
                "Failed to clone repository".to_string(),
            SyncError::RemoteFailure(RemoteProblem::Stage) =>
                "Failed to add files to index".to_string(),
            SyncError::RemoteFailure(RemoteProblem::Commit) =>
                "Failed to create commit".to_string(),
            SyncError::RemoteFailure(RemoteProblem::Push) => "Failed to push changes".to_string(),
            SyncError::WatchSetupFailure => "Failed to watch path".to_string(),
            SyncError::ScheduleFailure => "Failed to set up schedule".to_string(),
        }
    }
}

} // verus!
