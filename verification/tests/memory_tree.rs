use dotty::config::ProfileConfig;
use dotty::dryrun::{deploy_all, deploy_file, probe};
use dotty::error::{IoProblem, SyncError};
use dotty::filter::WalkEntry;
use dotty::memfs::{MemoryFs, Node};
use dotty::plan::{targets, Action, Target};

fn s(x: &str) -> String {
    x.to_string()
}

fn file(content: &str, mode: u32) -> Node {
    Node::File { content: content.as_bytes().to_vec(), mode }
}

fn vimrc_profile(use_symlinks: bool) -> ProfileConfig {
    let mut p = ProfileConfig::new(vec![s(".git"), s(".gitignore")], use_symlinks);
    p.insert_file(s(".vimrc"), s("/home/u/dotfiles/.vimrc"));
    p
}

#[test]
fn sync_without_prior_destination_copies_and_makes_no_backup() {
    let p = vimrc_profile(false);
    let mut fs = MemoryFs::new();
    fs.put_file("/home/u/dotfiles/.vimrc", b"set nu\n".to_vec(), 0o644);
    assert_eq!(deploy_all(&mut fs, &targets(&p, "/home/u"), &p), Ok(()));
    assert!(fs.contains("/home/u/.vimrc"));
    assert_eq!(fs.read("/home/u/.vimrc"), Some((b"set nu\n".to_vec(), 0o644)));
    assert_eq!(fs.node_at("/home/u/.vimrc"), Some(&file("set nu\n", 0o644)));
    assert!(!fs.contains("/home/u/.vimrc.bak"));
    assert_eq!(fs.node_at("/home/u/.vimrc.bak"), None);
    assert_eq!(fs.read("/home/u/dotfiles/.vimrc"), Some((b"set nu\n".to_vec(), 0o644)));
}

#[test]
fn sync_over_existing_destination_backs_it_up_first() {
    let p = vimrc_profile(false);
    let mut fs = MemoryFs::new();
    fs.put_file("/home/u/dotfiles/.vimrc", b"set nu\n".to_vec(), 0o644);
    fs.put_file("/home/u/.vimrc", b"old\n".to_vec(), 0o600);
    assert_eq!(deploy_all(&mut fs, &targets(&p, "/home/u"), &p), Ok(()));
    assert_eq!(fs.read("/home/u/.vimrc.bak"), Some((b"old\n".to_vec(), 0o600)));
    assert_eq!(fs.read("/home/u/.vimrc"), Some((b"set nu\n".to_vec(), 0o644)));
}

#[test]
fn second_pass_backs_up_what_the_first_deployed() {
    let p = vimrc_profile(false);
    let t = targets(&p, "/home/u");
    let mut fs = MemoryFs::new();
    fs.put_file("/home/u/dotfiles/.vimrc", b"set nu\n".to_vec(), 0o644);
    fs.put_file("/home/u/.vimrc", b"old\n".to_vec(), 0o600);
    assert_eq!(deploy_all(&mut fs, &t, &p), Ok(()));
    let after_first = fs.read("/home/u/.vimrc");
    assert_eq!(fs.read("/home/u/.vimrc.bak"), Some((b"old\n".to_vec(), 0o600)));
    assert_eq!(deploy_all(&mut fs, &t, &p), Ok(()));
    assert_eq!(fs.read("/home/u/.vimrc"), after_first);
    assert_eq!(fs.read("/home/u/.vimrc"), Some((b"set nu\n".to_vec(), 0o644)));
    assert_eq!(fs.read("/home/u/.vimrc.bak"), after_first);
}

#[test]
fn second_pass_in_symlink_mode_keeps_the_link_and_backs_up_its_content() {
    let p = vimrc_profile(true);
    let t = targets(&p, "/home/u");
    let mut fs = MemoryFs::new();
    fs.put_file("/home/u/dotfiles/.vimrc", b"set nu\n".to_vec(), 0o640);
    assert_eq!(deploy_all(&mut fs, &t, &p), Ok(()));
    let link = Node::Link { target: s("/home/u/dotfiles/.vimrc") };
    assert_eq!(fs.node_at("/home/u/.vimrc"), Some(&link));
    assert_eq!(fs.node_at("/home/u/.vimrc.bak"), None);
    assert_eq!(deploy_all(&mut fs, &t, &p), Ok(()));
    assert_eq!(fs.node_at("/home/u/.vimrc"), Some(&link));
    assert_eq!(fs.read("/home/u/.vimrc"), Some((b"set nu\n".to_vec(), 0o640)));
    assert_eq!(fs.node_at("/home/u/.vimrc.bak"), Some(&file("set nu\n", 0o640)));
}

#[test]
fn copy_mode_matches_permission_bits_of_the_source() {
    let p = vimrc_profile(false);
    let mut fs = MemoryFs::new();
    fs.put_file("/home/u/dotfiles/.vimrc", b"x".to_vec(), 0o755);
    fs.put_file("/home/u/.vimrc", b"y".to_vec(), 0o600);
    assert_eq!(deploy_all(&mut fs, &targets(&p, "/home/u"), &p), Ok(()));
    assert_eq!(fs.read("/home/u/.vimrc").unwrap().1, 0o755);
}

#[test]
fn missing_source_is_skipped_and_the_pass_goes_on() {
    let mut p = ProfileConfig::new(vec![], false);
    p.insert_file(s("gone"), s("/src/gone"));
    p.insert_file(s("here"), s("/src/here"));
    let mut fs = MemoryFs::new();
    fs.put_file("/src/here", b"h".to_vec(), 0o644);
    fs.put_file("/home/u/gone", b"stays".to_vec(), 0o644);
    assert_eq!(deploy_all(&mut fs, &targets(&p, "/home/u"), &p), Ok(()));
    assert_eq!(fs.read("/home/u/here"), Some((b"h".to_vec(), 0o644)));
    assert_eq!(fs.read("/home/u/gone"), Some((b"stays".to_vec(), 0o644)));
    assert!(!fs.contains("/home/u/gone.bak"));
}

#[test]
fn ignored_source_is_not_deployed() {
    let mut p = ProfileConfig::new(vec![s(".git")], false);
    p.insert_file(s(".gitconfig"), s("/src/.gitconfig"));
    let mut fs = MemoryFs::new();
    fs.put_file("/src/.gitconfig", b"g".to_vec(), 0o644);
    assert_eq!(deploy_all(&mut fs, &targets(&p, "/home/u"), &p), Ok(()));
    assert!(!fs.contains("/home/u/.gitconfig"));
}

#[test]
fn probe_reports_what_is_in_the_tree() {
    let mut fs = MemoryFs::new();
    fs.put_file("/src/a", b"a".to_vec(), 0o644);
    let seen = probe(&fs, "/src/a", "/home/u/a");
    assert!(seen.source_exists);
    assert!(!seen.dest_exists);
    assert_eq!(seen.entries, vec![WalkEntry::Path(s("/src/a"))]);
    let seen = probe(&fs, "/src/b", "/src/a");
    assert!(!seen.source_exists);
    assert!(seen.dest_exists);
}

#[test]
fn deploy_file_gives_one_file_its_turn() {
    let p = ProfileConfig::new(vec![], false);
    let t = Target { relative_path: s("a"), source: s("/src/a"), dest: s("/home/u/a") };
    let mut fs = MemoryFs::new();
    fs.put_file("/src/a", b"a".to_vec(), 0o644);
    assert_eq!(deploy_file(&mut fs, &t, &p), Ok(()));
    assert_eq!(fs.read("/home/u/a"), Some((b"a".to_vec(), 0o644)));
}

#[test]
fn dangling_link_does_not_exist_and_cannot_be_read() {
    let mut fs = MemoryFs::new();
    fs.put_link("/home/u/a", "/src/a");
    assert!(!fs.contains("/home/u/a"));
    assert_eq!(fs.read("/home/u/a"), None);
    assert_eq!(fs.node_at("/home/u/a"), Some(&Node::Link { target: s("/src/a") }));
    fs.put_file("/src/a", b"a".to_vec(), 0o644);
    assert!(fs.contains("/home/u/a"));
    assert_eq!(fs.read("/home/u/a"), Some((b"a".to_vec(), 0o644)));
}

#[test]
fn put_replaces_what_was_at_the_path() {
    let mut fs = MemoryFs::new();
    fs.put_file("/a", b"1".to_vec(), 0o600);
    fs.put_file("/a", b"2".to_vec(), 0o644);
    assert_eq!(fs.read("/a"), Some((b"2".to_vec(), 0o644)));
    fs.put(s("/a"), Node::Link { target: s("/b") });
    assert_eq!(fs.read("/a"), None);
}

#[test]
fn backup_of_a_missing_file_fails() {
    let mut fs = MemoryFs::new();
    let a = Action::Backup { from: s("/a"), to: s("/a.bak") };
    assert_eq!(fs.apply(&a), Err(SyncError::IOFailure(IoProblem::Backup)));
    assert_eq!(fs.node_at("/a.bak"), None);
}

#[test]
fn copy_of_a_missing_source_fails() {
    let mut fs = MemoryFs::new();
    let a = Action::Copy { source: s("/a"), dest: s("/b") };
    assert_eq!(fs.apply(&a), Err(SyncError::IOFailure(IoProblem::Copy)));
    assert_eq!(fs.node_at("/b"), None);
}

#[test]
fn permissions_of_a_missing_source_fail_on_metadata() {
    let mut fs = MemoryFs::new();
    fs.put_file("/b", b"b".to_vec(), 0o600);
    let a = Action::CopyPermissions { source: s("/a"), dest: s("/b") };
    assert_eq!(fs.apply(&a), Err(SyncError::IOFailure(IoProblem::Metadata)));
}

#[test]
fn permissions_on_a_missing_destination_fail() {
    let mut fs = MemoryFs::new();
    fs.put_file("/a", b"a".to_vec(), 0o600);
    let a = Action::CopyPermissions { source: s("/a"), dest: s("/b") };
    assert_eq!(fs.apply(&a), Err(SyncError::IOFailure(IoProblem::SetPermissions)));
}

#[test]
fn permissions_are_set_through_a_link() {
    let mut fs = MemoryFs::new();
    fs.put_file("/a", b"a".to_vec(), 0o755);
    fs.put_file("/t", b"t".to_vec(), 0o600);
    fs.put_link("/l", "/t");
    let a = Action::CopyPermissions { source: s("/a"), dest: s("/l") };
    assert_eq!(fs.apply(&a), Ok(()));
    assert_eq!(fs.node_at("/t"), Some(&file("t", 0o755)));
    assert_eq!(fs.node_at("/l"), Some(&Node::Link { target: s("/t") }));
}

#[test]
fn first_failing_operation_stops_the_rest() {
    let mut fs = MemoryFs::new();
    fs.put_file("/a", b"a".to_vec(), 0o644);
    let actions = vec![
        Action::Copy { source: s("/a"), dest: s("/b") },
        Action::Copy { source: s("/missing"), dest: s("/c") },
        Action::Copy { source: s("/a"), dest: s("/d") },
    ];
    assert_eq!(fs.apply_all(&actions), Err(SyncError::IOFailure(IoProblem::Copy)));
    assert!(fs.contains("/b"));
    assert!(!fs.contains("/c"));
    assert!(!fs.contains("/d"));
}

#[test]
fn link_replaces_a_prior_link() {
    let mut fs = MemoryFs::new();
    fs.put_file("/a", b"a".to_vec(), 0o644);
    fs.put_file("/old", b"o".to_vec(), 0o644);
    fs.put_link("/l", "/old");
    assert_eq!(fs.apply(&Action::Symlink { source: s("/a"), dest: s("/l") }), Ok(()));
    assert_eq!(fs.node_at("/l"), Some(&Node::Link { target: s("/a") }));
    assert_eq!(fs.read("/old"), Some((b"o".to_vec(), 0o644)));
}
