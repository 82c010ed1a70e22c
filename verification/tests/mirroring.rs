use dotty::config::{Config, ProfileConfig, RemoteConfig};
use dotty::error::{ConfigProblem, IoProblem, RemoteProblem, SyncError};
use dotty::mirror::{step_failure, sync_with_github, MirrorStep};

fn s(x: &str) -> String {
    x.to_string()
}

fn config(repo: &str, token: &str) -> Config {
    let mut c = Config::new(
        RemoteConfig { github_repo: s(repo), github_token: s(token) },
        5,
        None,
    );
    let mut work = ProfileConfig::new(vec![], false);
    work.insert_file(s(".vimrc"), s("/home/u/dotfiles/.vimrc"));
    work.insert_file(s(".config/git/config"), s("/home/u/dotfiles/gitconfig"));
    let mut home = ProfileConfig::new(vec![], true);
    home.insert_file(s(".zshrc"), s("/home/u/dotfiles/.zshrc"));
    c.insert_profile(s("work"), work);
    c.insert_profile(s("home"), home);
    c
}

fn copies() -> Vec<MirrorStep> {
    vec![
        MirrorStep::CopyTracked {
            source: s("/home/u/dotfiles/.vimrc"),
            dest: s("/home/u/.dotty_repo/.vimrc"),
            parent: Some(s("/home/u/.dotty_repo")),
        },
        MirrorStep::CopyTracked {
            source: s("/home/u/dotfiles/gitconfig"),
            dest: s("/home/u/.dotty_repo/.config/git/config"),
            parent: Some(s("/home/u/.dotty_repo/.config/git")),
        },
        MirrorStep::CopyTracked {
            source: s("/home/u/dotfiles/.zshrc"),
            dest: s("/home/u/.dotty_repo/.zshrc"),
            parent: Some(s("/home/u/.dotty_repo")),
        },
    ]
}

fn closing(token: &str) -> Vec<MirrorStep> {
    vec![
        MirrorStep::Stage,
        MirrorStep::Commit { message: s("Sync dotfiles") },
        MirrorStep::Push {
            remote: s("origin"),
            refspec: s("refs/heads/master:refs/heads/master"),
            username: s("x-access-token"),
            token: s(token),
        },
    ]
}

#[test]
fn mirror_opens_an_existing_working_copy() {
    let steps = sync_with_github(&config("https://example.org/r.git", "t0k"), "/home/u", true);
    let mut expected = vec![MirrorStep::Open { path: s("/home/u/.dotty_repo") }];
    expected.extend(copies());
    expected.extend(closing("t0k"));
    assert_eq!(steps, Ok(expected));
}

#[test]
fn mirror_clones_on_first_use() {
    let steps = sync_with_github(&config("https://example.org/r.git", "t0k"), "/home/u", false);
    let mut expected = vec![MirrorStep::Clone {
        url: s("https://example.org/r.git"),
        path: s("/home/u/.dotty_repo"),
    }];
    expected.extend(copies());
    expected.extend(closing("t0k"));
    assert_eq!(steps, Ok(expected));
}

#[test]
fn mirror_covers_the_files_of_all_profiles() {
    let steps = sync_with_github(&config("r", "t"), "/home/u", true).unwrap();
    for copy in copies() {
        assert!(steps.contains(&copy));
    }
    assert_eq!(steps.len(), 1 + 3 + 3);
}

#[test]
fn mirror_without_tracked_files_still_commits_and_pushes() {
    let c = Config::new(RemoteConfig { github_repo: s("r"), github_token: s("t") }, 5, None);
    let mut expected = vec![MirrorStep::Open { path: s("/home/u/.dotty_repo") }];
    expected.extend(closing("t"));
    assert_eq!(sync_with_github(&c, "/home/u", true), Ok(expected));
}

#[test]
fn mirror_needs_a_repository_address() {
    assert_eq!(
        sync_with_github(&config("", "t0k"), "/home/u", true),
        Err(SyncError::ConfigInvalid(ConfigProblem::MissingRepository))
    );
    assert_eq!(
        sync_with_github(&config("", ""), "/home/u", false),
        Err(SyncError::ConfigInvalid(ConfigProblem::MissingRepository))
    );
}

#[test]
fn mirror_needs_a_token() {
    assert_eq!(
        sync_with_github(&config("r", ""), "/home/u", true),
        Err(SyncError::ConfigInvalid(ConfigProblem::MissingToken))
    );
}

#[test]
fn each_step_fails_with_its_own_error() {
    let steps = sync_with_github(&config("r", "t"), "/home/u", true).unwrap();
    let errors: Vec<SyncError> = steps.iter().map(step_failure).collect();
    assert_eq!(
        errors,
        vec![
            SyncError::RemoteFailure(RemoteProblem::Open),
            SyncError::IOFailure(IoProblem::CopyToMirror),
            SyncError::IOFailure(IoProblem::CopyToMirror),
            SyncError::IOFailure(IoProblem::CopyToMirror),
            SyncError::RemoteFailure(RemoteProblem::Stage),
            SyncError::RemoteFailure(RemoteProblem::Commit),
            SyncError::RemoteFailure(RemoteProblem::Push),
        ]
    );
    assert_eq!(
        step_failure(&MirrorStep::Clone { url: s("r"), path: s("p") }),
        SyncError::RemoteFailure(RemoteProblem::Clone)
    );
}

#[test]
fn working_copy_lies_below_home() {
    assert_eq!(dotty::mirror::mirror_root_path("/home/u"), "/home/u/.dotty_repo");
    assert_eq!(dotty::mirror::mirror_root_path("/home/u/"), "/home/u/.dotty_repo");
}
