use dotty::error::{IoProblem, RemoteProblem, SyncError};
use dotty::pass::{Stage, SyncPass};
use dotty::plan::Target;

fn target(name: &str) -> Target {
    Target {
        relative_path: name.to_string(),
        source: format!("/src/{}", name),
        dest: format!("/home/u/{}", name),
    }
}

#[test]
fn pass_goes_from_diff_through_each_file_to_mirror() {
    let mut pass = SyncPass::begin("default".to_string(), vec![target("a"), target("b")]);
    assert_eq!(pass.stage(), Stage::Diffing);
    assert_eq!(pass.current(), None);
    pass.advance(Ok(()));
    assert_eq!(pass.stage(), Stage::Deploying(0));
    assert_eq!(pass.current(), Some(&target("a")));
    pass.advance(Ok(()));
    assert_eq!(pass.stage(), Stage::Deploying(1));
    assert_eq!(pass.current(), Some(&target("b")));
    pass.advance(Ok(()));
    assert_eq!(pass.stage(), Stage::Mirroring);
    assert_eq!(pass.current(), None);
    pass.advance(Ok(()));
    assert_eq!(pass.stage(), Stage::Completed);
    assert_eq!(pass.error(), None);
    pass.advance(Ok(()));
    assert_eq!(pass.stage(), Stage::Completed);
}

#[test]
fn pass_without_files_goes_from_diff_to_mirror() {
    let mut pass = SyncPass::begin("default".to_string(), vec![]);
    pass.advance(Ok(()));
    assert_eq!(pass.stage(), Stage::Mirroring);
    pass.advance(Ok(()));
    assert_eq!(pass.stage(), Stage::Completed);
}

#[test]
fn failing_file_aborts_later_files_and_the_mirror() {
    let mut pass = SyncPass::begin("default".to_string(), vec![target("a"), target("b")]);
    pass.advance(Ok(()));
    pass.advance(Err(SyncError::IOFailure(IoProblem::Copy)));
    assert_eq!(pass.stage(), Stage::Aborted(SyncError::IOFailure(IoProblem::Copy)));
    assert_eq!(pass.error(), Some(SyncError::IOFailure(IoProblem::Copy)));
    assert_eq!(pass.current(), None);
    pass.advance(Ok(()));
    assert_eq!(pass.stage(), Stage::Aborted(SyncError::IOFailure(IoProblem::Copy)));
}

#[test]
fn first_error_is_kept() {
    let mut pass = SyncPass::begin("default".to_string(), vec![target("a")]);
    pass.advance(Err(SyncError::IOFailure(IoProblem::HomeUnavailable)));
    pass.advance(Err(SyncError::RemoteFailure(RemoteProblem::Push)));
    assert_eq!(pass.error(), Some(SyncError::IOFailure(IoProblem::HomeUnavailable)));
}

#[test]
fn failing_mirror_aborts_the_pass() {
    let mut pass = SyncPass::begin("default".to_string(), vec![]);
    pass.advance(Ok(()));
    pass.advance(Err(SyncError::RemoteFailure(RemoteProblem::Commit)));
    assert_eq!(pass.stage(), Stage::Aborted(SyncError::RemoteFailure(RemoteProblem::Commit)));
}

#[test]
fn completed_pass_ignores_late_errors() {
    let mut pass = SyncPass::begin("p".to_string(), vec![]);
    pass.advance(Ok(()));
    pass.advance(Ok(()));
    pass.advance(Err(SyncError::RemoteFailure(RemoteProblem::Push)));
    assert_eq!(pass.stage(), Stage::Completed);
}

#[test]
fn pass_keeps_profile_and_targets() {
    let mut pass = SyncPass::begin("work".to_string(), vec![target("a")]);
    pass.advance(Ok(()));
    assert_eq!(pass.profile(), "work");
    assert_eq!(pass.targets(), &vec![target("a")]);
}
