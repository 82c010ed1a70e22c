use dotty::config::ProfileConfig;
use dotty::filter::{is_ignored, should_sync, WalkEntry};

fn profile(patterns: &[&str]) -> ProfileConfig {
    ProfileConfig::new(patterns.iter().map(|p| p.to_string()).collect(), false)
}

fn path(p: &str) -> WalkEntry {
    WalkEntry::Path(p.to_string())
}

#[test]
fn source_without_ignored_substring_is_eligible() {
    let p = profile(&[".git", ".gitignore"]);
    assert!(should_sync(&vec![path("/home/u/dotfiles/.vimrc")], &p));
}

#[test]
fn pattern_in_own_name_makes_ineligible() {
    let p = profile(&[".git", ".gitignore"]);
    assert!(!should_sync(&vec![path("/home/u/dotfiles/.gitconfig")], &p));
}

#[test]
fn pattern_in_ancestor_name_makes_ineligible() {
    let p = profile(&["secret"]);
    assert!(!should_sync(&vec![path("/home/u/my-secrets/notes/.vimrc")], &p));
    assert!(should_sync(&vec![path("/home/u/public/notes/.vimrc")], &p));
}

#[test]
fn one_ignored_descendant_makes_the_whole_source_ineligible() {
    let p = profile(&["cache"]);
    let walk = vec![path("/s/nvim"), path("/s/nvim/init.lua"), path("/s/nvim/cache/x")];
    assert!(!should_sync(&walk, &p));
    let walk = vec![path("/s/nvim"), path("/s/nvim/init.lua")];
    assert!(should_sync(&walk, &p));
}

#[test]
fn unreadable_and_unnamed_entries_are_passed_over() {
    let p = profile(&["cache"]);
    let walk = vec![WalkEntry::Unreadable, path("/s/nvim"), WalkEntry::Unnamed];
    assert!(should_sync(&walk, &p));
    let walk = vec![WalkEntry::Unreadable, path("/s/cache"), WalkEntry::Unnamed];
    assert!(!should_sync(&walk, &p));
}

#[test]
fn no_patterns_means_everything_is_eligible() {
    let p = profile(&[]);
    assert!(should_sync(&vec![path("/a/.git/config")], &p));
    assert!(should_sync(&vec![], &p));
}

#[test]
fn empty_walk_is_eligible() {
    assert!(should_sync(&vec![], &profile(&[".git"])));
}

#[test]
fn empty_pattern_matches_every_path() {
    let p = profile(&[""]);
    assert!(!should_sync(&vec![path("/a/b")], &p));
}

#[test]
fn pattern_is_a_substring_not_a_glob() {
    let patterns = vec!["*.swp".to_string()];
    assert!(!is_ignored("/a/b.swp", &patterns));
    assert!(is_ignored("/a/*.swp", &patterns));
}

#[test]
fn pattern_with_separator_spans_components() {
    let patterns = vec!["a/b".to_string()];
    assert!(is_ignored("/home/a/b", &patterns));
    assert!(!is_ignored("/home/a-b", &patterns));
}

#[test]
fn is_ignored_tells_pattern_from_path() {
    let patterns = vec!["/home/u/.vimrc.orig".to_string()];
    assert!(!is_ignored("/home/u/.vimrc", &patterns));
    assert!(is_ignored("/x/home/u/.vimrc.orig/y", &patterns));
}

#[test]
fn non_ascii_patterns_match_whole_characters() {
    let patterns = vec!["é".to_string()];
    assert!(is_ignored("/home/u/café", &patterns));
    assert!(!is_ignored("/home/u/cafe", &patterns));
}
