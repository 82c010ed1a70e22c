//! The deploy stage of a pass, done on a file tree in memory.

use vstd::prelude::*;
use crate::config::ProfileConfig;
use crate::error::SyncError;
use crate::filter::{WalkEntry, WalkEntryView};
use crate::memfs::{apply_actions, exists_at, MemoryFs, Tree};
use crate::plan::{
    file_plan, plan_file, targets_view, FilePlan, FilePlanView, Probe, ProbeView, Target,
    TargetView,
};

verus! {

/// What is observed of a tracked file on a tree in memory.  The walk over a
/// source yields the source itself.
pub open spec fn probe_on(tree: Tree, source: Seq<char>, dest: Seq<char>) -> ProbeView {
    ProbeView {
        source_exists: exists_at(tree, source),
        entries: seq![WalkEntryView::Path(source)],
        dest_exists: exists_at(tree, dest),
    }
}

/// The tree after the turn of one tracked file, and the error that ended the
/// turn early, if one did.
pub open spec fn deploy_on(
    tree: Tree,
    target: TargetView,
    patterns: Seq<Seq<char>>,
    use_symlinks: bool,
) -> (Tree, Option<SyncError>) {
    match file_plan(
        target.source,
        target.dest,
        patterns,
        use_symlinks,
        probe_on(tree, target.source, target.dest),
    ) {
        FilePlanView::Deploy(actions) => apply_actions(tree, actions),
        _ => (tree, None),
    }
}

/// The tree after the turns of the tracked files, in order, up to the first
/// error, and that error if there is one.
pub open spec fn deploy_all_on(
    tree: Tree,
    targets: Seq<TargetView>,
    patterns: Seq<Seq<char>>,
    use_symlinks: bool,
) -> (Tree, Option<SyncError>)
    decreases targets.len(),
{
    if targets.len() == 0 {
        (tree, None)
    } else {
        let first = deploy_on(tree, targets[0], patterns, use_symlinks);
        if first.1 is Some {
            first
        } else {
            deploy_all_on(first.0, targets.drop_first(), patterns, use_symlinks)
        }
    }
}

/// What is observed of the file with this source and destination on `fs`.
pub fn probe(fs: &MemoryFs, source: &str, dest: &str) -> (r: Probe)
    ensures
        r@ == probe_on(fs@, source@, dest@),
{
    let mut entries: Vec<WalkEntry> = Vec::new();
    entries.push(WalkEntry::Path(source.to_string()));
    let r = Probe { source_exists: fs.contains(source), entries, dest_exists: fs.contains(dest) };
    assert(r@.entries =~= seq![WalkEntryView::Path(source@)]);
    r
}

/// Gives one tracked file its turn on `fs`: observes it, decides, and does
/// the file operations decided on, up to the first that fails.
pub fn deploy_file(fs: &mut MemoryFs, target: &Target, profile_config: &ProfileConfig) -> (r:
    Result<(), SyncError>)
    ensures
        final(fs)@ == deploy_on(
            old(fs)@,
            target@,
            profile_config@.ignore_patterns,
            profile_config@.use_symlinks,
        ).0,
        match deploy_on(
            old(fs)@,
            target@,
            profile_config@.ignore_patterns,
            profile_config@.use_symlinks,
        ).1 {
            Some(e) => r == Err::<(), SyncError>(e),
            None => r is Ok,
        },
{
    let observed = probe(fs, target.source.as_str(), target.dest.as_str());
    match plan_file(target.source.as_str(), target.dest.as_str(), profile_config, &observed) {
        FilePlan::Deploy(actions) => fs.apply_all(&actions),
        _ => Ok(()),
    }
}

/// Gives each tracked file its turn on `fs`, in order.  The first error ends
/// the stage; what was done before it stays done.
pub fn deploy_all(fs: &mut MemoryFs, targets: &Vec<Target>, profile_config: &ProfileConfig) -> (r:
    Result<(), SyncError>)
    ensures
        final(fs)@ == deploy_all_on(
            old(fs)@,
            targets_view(targets@),
            profile_config@.ignore_patterns,
            profile_config@.use_symlinks,
        ).0,
        match deploy_all_on(
            old(fs)@,
            targets_view(targets@),
            profile_config@.ignore_patterns,
            profile_config@.use_symlinks,
        ).1 {
            Some(e) => r == Err::<(), SyncError>(e),
            None => r is Ok,
        },
{
    let ghost all = targets_view(targets@);
    let ghost patterns = profile_config@.ignore_patterns;
    let ghost links = profile_config@.use_symlinks;
    let mut i: usize = 0;
    assert(all.skip(0) =~= all);
    while i < targets.len()
        invariant
            i <= targets@.len(),
            all == targets_view(targets@),
            patterns == profile_config@.ignore_patterns,
            links == profile_config@.use_symlinks,
            deploy_all_on(old(fs)@, all, patterns, links) == deploy_all_on(
                fs@,
                all.skip(i as int),
                patterns,
                links,
            ),
        decreases targets@.len() - i,
    {
        proof {
            assert(all.skip(i as int).drop_first() =~= all.skip(i as int + 1));
            assert(all.skip(i as int)[0] == targets@[i as int]@);
        }
        match deploy_file(fs, &targets[i], profile_config) {
            Ok(()) => {},
            Err(e) => {
                return Err(e);
            },
        }
        i += 1;
    }
    Ok(())
}

} // verus!
