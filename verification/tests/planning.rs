use dotty::config::ProfileConfig;
use dotty::error::{IoProblem, SyncError};
use dotty::filter::WalkEntry;
use dotty::paths::backup_path;
use dotty::plan::{
    action_failure, backup_file, deploy, plan_file, sync_permissions, targets, Action, FilePlan,
    Probe, Target,
};

fn s(x: &str) -> String {
    x.to_string()
}

fn probe(source_exists: bool, walk: &[&str], dest_exists: bool) -> Probe {
    Probe {
        source_exists,
        entries: walk.iter().map(|p| WalkEntry::Path(p.to_string())).collect(),
        dest_exists,
    }
}

#[test]
fn backup_path_replaces_the_extension() {
    assert_eq!(backup_path("/home/u/notes.txt"), "/home/u/notes.bak");
    assert_eq!(backup_path("/home/u/archive.tar.gz"), "/home/u/archive.tar.bak");
}

#[test]
fn backup_path_of_a_dotfile_appends_the_extension() {
    assert_eq!(backup_path("/home/u/.vimrc"), "/home/u/.vimrc.bak");
}

#[test]
fn backup_path_of_a_file_without_extension_appends_it() {
    assert_eq!(backup_path("/home/u/Makefile"), "/home/u/Makefile.bak");
}

#[test]
fn backup_only_where_destination_exists() {
    assert_eq!(backup_file("/home/u/.vimrc", false), None);
    assert_eq!(
        backup_file("/home/u/.vimrc", true),
        Some(Action::Backup { from: s("/home/u/.vimrc"), to: s("/home/u/.vimrc.bak") })
    );
}

#[test]
fn sync_permissions_names_source_and_destination() {
    assert_eq!(
        sync_permissions("/src/a", "/home/u/a"),
        Action::CopyPermissions { source: s("/src/a"), dest: s("/home/u/a") }
    );
}

#[test]
fn copy_mode_copies_then_sets_permissions() {
    assert_eq!(
        deploy("/src/a", "/home/u/a", false, false),
        vec![
            Action::Copy { source: s("/src/a"), dest: s("/home/u/a") },
            Action::CopyPermissions { source: s("/src/a"), dest: s("/home/u/a") },
        ]
    );
}

#[test]
fn copy_mode_backs_up_an_existing_destination_first() {
    assert_eq!(
        deploy("/src/a.conf", "/home/u/a.conf", true, false),
        vec![
            Action::Backup { from: s("/home/u/a.conf"), to: s("/home/u/a.bak") },
            Action::Copy { source: s("/src/a.conf"), dest: s("/home/u/a.conf") },
            Action::CopyPermissions { source: s("/src/a.conf"), dest: s("/home/u/a.conf") },
        ]
    );
}

#[test]
fn symlink_mode_never_sets_permissions() {
    for dest_exists in [false, true] {
        let actions = deploy("/src/a", "/home/u/a", dest_exists, true);
        assert!(actions.iter().all(|a| !matches!(a, Action::CopyPermissions { .. })));
        assert!(actions.iter().all(|a| !matches!(a, Action::Copy { .. })));
        assert_eq!(
            actions.last(),
            Some(&Action::Symlink { source: s("/src/a"), dest: s("/home/u/a") })
        );
        assert_eq!(actions.len(), if dest_exists { 2 } else { 1 });
    }
}

#[test]
fn missing_source_is_passed_over() {
    let p = ProfileConfig::new(vec![], false);
    assert_eq!(
        plan_file("/src/a", "/home/u/a", &p, &probe(false, &[], true)),
        FilePlan::SourceMissing
    );
}

#[test]
fn ignored_source_is_passed_over() {
    let p = ProfileConfig::new(vec![s(".git")], false);
    assert_eq!(
        plan_file(
            "/src/.gitconfig",
            "/home/u/.gitconfig",
            &p,
            &probe(true, &["/src/.gitconfig"], true)
        ),
        FilePlan::Ignored
    );
}

#[test]
fn missing_source_wins_over_ignored() {
    let p = ProfileConfig::new(vec![s(".git")], false);
    assert_eq!(
        plan_file(
            "/src/.gitconfig",
            "/home/u/.gitconfig",
            &p,
            &probe(false, &["/src/.gitconfig"], true)
        ),
        FilePlan::SourceMissing
    );
}

#[test]
fn eligible_source_is_deployed_by_the_profile_strategy() {
    let copy = ProfileConfig::new(vec![s(".git")], false);
    let link = ProfileConfig::new(vec![s(".git")], true);
    let seen = probe(true, &["/src/.vimrc"], false);
    assert_eq!(
        plan_file("/src/.vimrc", "/home/u/.vimrc", &copy, &seen),
        FilePlan::Deploy(vec![
            Action::Copy { source: s("/src/.vimrc"), dest: s("/home/u/.vimrc") },
            Action::CopyPermissions { source: s("/src/.vimrc"), dest: s("/home/u/.vimrc") },
        ])
    );
    assert_eq!(
        plan_file("/src/.vimrc", "/home/u/.vimrc", &link, &seen),
        FilePlan::Deploy(vec![Action::Symlink {
            source: s("/src/.vimrc"),
            dest: s("/home/u/.vimrc")
        }])
    );
}

#[test]
fn targets_join_relative_paths_to_home() {
    let mut p = ProfileConfig::new(vec![], false);
    p.insert_file(s(".vimrc"), s("/home/u/dotfiles/.vimrc"));
    p.insert_file(s(".config/nvim/init.lua"), s("/home/u/dotfiles/init.lua"));
    assert_eq!(
        targets(&p, "/home/u"),
        vec![
            Target {
                relative_path: s(".vimrc"),
                source: s("/home/u/dotfiles/.vimrc"),
                dest: s("/home/u/.vimrc"),
            },
            Target {
                relative_path: s(".config/nvim/init.lua"),
                source: s("/home/u/dotfiles/init.lua"),
                dest: s("/home/u/.config/nvim/init.lua"),
            },
        ]
    );
}

#[test]
fn targets_of_an_empty_profile_are_none() {
    assert_eq!(targets(&ProfileConfig::new(vec![], false), "/home/u"), vec![]);
}

#[test]
fn each_action_fails_with_its_own_error() {
    let backup = Action::Backup { from: s("a"), to: s("b") };
    let link = Action::Symlink { source: s("a"), dest: s("b") };
    let copy = Action::Copy { source: s("a"), dest: s("b") };
    let bits = Action::CopyPermissions { source: s("a"), dest: s("b") };
    assert_eq!(action_failure(&backup, false), SyncError::IOFailure(IoProblem::Backup));
    assert_eq!(action_failure(&link, false), SyncError::IOFailure(IoProblem::Symlink));
    assert_eq!(action_failure(&copy, true), SyncError::IOFailure(IoProblem::Copy));
    assert_eq!(action_failure(&bits, true), SyncError::IOFailure(IoProblem::Metadata));
    assert_eq!(action_failure(&bits, false), SyncError::IOFailure(IoProblem::SetPermissions));
}
