//! What holds of the deploy stage on a file tree: what a turn leaves at the
//! destination and at the backup path, what it leaves alone, and what a
//! second pass does after a first.

use vstd::prelude::*;
use crate::dryrun::{deploy_all_on, deploy_on};
use crate::error::SyncError;
use crate::filter::{eligible, entry_ignored, path_ignored, WalkEntryView};
use crate::memfs::{apply_action, apply_actions, exists_at, file_read_at, read_at, NodeView, Tree};
use crate::paths::backup_path_of;
use crate::plan::{deploy_actions, ActionView, TargetView};

verus! {

/// A pass deploys a file when its source exists and no ignore pattern is a
/// substring of the source's path.
pub open spec fn is_deployed(tree: Tree, target: TargetView, patterns: Seq<Seq<char>>) -> bool {
    exists_at(tree, target.source) && !path_ignored(target.source, patterns)
}

/// What a deployment leaves at the destination: a link to the source in
/// symlink mode, else a regular file with what was read at the source.
pub open spec fn deployed_node(tree: Tree, target: TargetView, use_symlinks: bool) -> NodeView {
    if use_symlinks {
        NodeView::Link { target: target.source }
    } else {
        file_read_at(tree, target.source)
    }
}

/// What a backup holds: a regular file with what was read at the destination.
pub open spec fn backup_node(tree: Tree, target: TargetView) -> NodeView {
    file_read_at(tree, target.dest)
}

/// The source is a regular file where it exists, and differs from the
/// destination and from the backup path, which differ from each other.
pub open spec fn sound_target(tree: Tree, target: TargetView) -> bool {
    &&& target.source != target.dest
    &&& target.source != backup_path_of(target.dest)
    &&& target.dest != backup_path_of(target.dest)
    &&& tree.dom().contains(target.source) ==> tree[target.source] is File
}

/// `path` holds in `after` what it held in `before`.
pub open spec fn same_at(before: Tree, after: Tree, path: Seq<char>) -> bool {
    (before.dom().contains(path) <==> after.dom().contains(path)) && before[path] == after[path]
}

/// The paths other than `target`'s destination and backup path hold in
/// `after` what they held in `before`.
pub open spec fn same_elsewhere(before: Tree, after: Tree, target: TargetView) -> bool {
    forall|p: Seq<char>|
        p != target.dest && p != backup_path_of(target.dest) ==> #[trigger] same_at(
            before,
            after,
            p,
        )
}

proof fn lemma_apply_cons(tree: Tree, first: ActionView, rest: Seq<ActionView>)
    ensures
        apply_actions(tree, seq![first] + rest) == match apply_action(tree, first) {
            Ok(next) => apply_actions(next, rest),
            Err(e) => (tree, Some(e)),
        },
{
    let all = seq![first] + rest;
    assert(all[0] == first);
    assert(all.drop_first() =~= rest);
}

proof fn lemma_single_path_walk(path: Seq<char>, patterns: Seq<Seq<char>>)
    ensures
        eligible(seq![WalkEntryView::Path(path)], patterns) <==> !path_ignored(path, patterns),
{
    let entries = seq![WalkEntryView::Path(path)];
    if eligible(entries, patterns) {
        assert(!entry_ignored(entries[0], patterns));
    }
}

/// The turn of one tracked file, on any tree.  It never fails.  A file that
/// is not deployed leaves the tree as it was.  A deployed file leaves at the
/// destination a link to the source, or a copy with the source's bytes and
/// permission bits; where the destination existed, its former content now
/// lies at the backup path; where it did not, nothing but the destination
/// has changed, so no backup was created.  All other paths keep what they
/// held.
pub proof fn lemma_deploy_on(
    tree: Tree,
    target: TargetView,
    patterns: Seq<Seq<char>>,
    use_symlinks: bool,
)
    requires
        sound_target(tree, target),
    ensures
        ({
            let after = deploy_on(tree, target, patterns, use_symlinks).0;
            let backup = backup_path_of(target.dest);
            &&& deploy_on(tree, target, patterns, use_symlinks).1 is None
            &&& same_elsewhere(tree, after, target)
            &&& !is_deployed(tree, target, patterns) ==> after == tree
            &&& is_deployed(tree, target, patterns) ==> {
                &&& after.dom().contains(target.dest)
                &&& after[target.dest] == deployed_node(tree, target, use_symlinks)
                &&& read_at(after, target.dest) == read_at(tree, target.source)
                &&& after.dom().contains(target.source) && after[target.source]
                    == tree[target.source]
                &&& exists_at(tree, target.dest) ==> after.dom().contains(backup) && after[backup]
                    == backup_node(tree, target)
                &&& !exists_at(tree, target.dest) ==> after == tree.insert(
                    target.dest,
                    deployed_node(tree, target, use_symlinks),
                )
            }
        }),
{
    let source = target.source;
    let dest = target.dest;
    let backup = backup_path_of(dest);
    lemma_single_path_walk(source, patterns);
    if is_deployed(tree, target, patterns) {
        let dest_exists = exists_at(tree, dest);
        let actions = deploy_actions(source, dest, dest_exists, use_symlinks);
        let base = if dest_exists {
            tree.insert(backup, backup_node(tree, target))
        } else {
            tree
        };
        let empty = Seq::<ActionView>::empty();
        assert(read_at(base, source) == read_at(tree, source));
        let node = deployed_node(tree, target, use_symlinks);
        let last = base.insert(dest, node);
        if use_symlinks {
            let link = ActionView::Symlink { source, dest };
            assert(apply_actions(base, seq![link]) == (last, None::<SyncError>)) by {
                lemma_apply_cons(base, link, empty);
                assert(seq![link] + empty =~= seq![link]);
            }
            if dest_exists {
                let first = ActionView::Backup { from: dest, to: backup };
                assert(actions =~= seq![first] + seq![link]);
                lemma_apply_cons(tree, first, seq![link]);
            } else {
                assert(actions =~= seq![link]);
            }
        } else {
            let copy = ActionView::Copy { source, dest };
            let bits = ActionView::CopyPermissions { source, dest };
            assert(apply_actions(base, seq![copy, bits]) == (last, None::<SyncError>)) by {
                lemma_apply_cons(base, copy, seq![bits]);
                assert(seq![copy] + seq![bits] =~= seq![copy, bits]);
                lemma_apply_cons(last, bits, empty);
                assert(seq![bits] + empty =~= seq![bits]);
                assert(read_at(last, source) == read_at(tree, source));
                assert(last.insert(dest, node) =~= last);
            }
            if dest_exists {
                let first = ActionView::Backup { from: dest, to: backup };
                assert(actions =~= seq![first] + seq![copy, bits]);
                lemma_apply_cons(tree, first, seq![copy, bits]);
            } else {
                assert(actions =~= seq![copy, bits]);
            }
        }
        assert(deploy_on(tree, target, patterns, use_symlinks).0 == last);
    }
}

/// In copy mode a deployed file has, after its turn, the permission bits
/// and the bytes of its source.
pub proof fn lemma_copy_mode_matches_permissions(
    tree: Tree,
    target: TargetView,
    patterns: Seq<Seq<char>>,
)
    requires
        sound_target(tree, target),
        is_deployed(tree, target, patterns),
    ensures
        ({
            let after = deploy_on(tree, target, patterns, false).0;
            &&& after.dom().contains(target.dest)
            &&& after[target.dest] is File
            &&& after[target.dest]->mode == tree[target.source]->mode
            &&& after[target.dest]->content == tree[target.source]->content
        }),
{
    lemma_deploy_on(tree, target, patterns, false);
}

/// `path` is the destination or the backup path of one of the targets.
pub open spec fn is_touched(targets: Seq<TargetView>, path: Seq<char>) -> bool {
    exists|i: int|
        0 <= i < targets.len() && (path == (#[trigger] targets[i]).dest || path == backup_path_of(
            targets[i].dest,
        ))
}

/// The tracked files do not get in each other's way: no source is a
/// destination or a backup path, no destination is a backup path, and two
/// files share neither destination nor backup path.
pub open spec fn independent(targets: Seq<TargetView>) -> bool {
    forall|i: int, j: int|
        #![trigger targets[i], targets[j]]
        0 <= i < targets.len() && 0 <= j < targets.len() ==> {
            &&& targets[i].source != targets[j].dest
            &&& targets[i].source != backup_path_of(targets[j].dest)
            &&& targets[i].dest != backup_path_of(targets[j].dest)
            &&& i != j ==> targets[i].dest != targets[j].dest && backup_path_of(targets[i].dest)
                != backup_path_of(targets[j].dest)
        }
}

/// Every source that exists is a regular file.
pub open spec fn regular_sources(tree: Tree, targets: Seq<TargetView>) -> bool {
    forall|i: int|
        0 <= i < targets.len() && tree.dom().contains((#[trigger] targets[i]).source)
            ==> tree[targets[i].source] is File
}

/// The destination holds a regular file or a link to the file's own source.
pub open spec fn plainly_deployed(tree: Tree, target: TargetView) -> bool {
    tree.dom().contains(target.dest) && (tree[target.dest] is File || tree[target.dest]
        == NodeView::Link { target: target.source })
}

/// What a deploy stage that started on `tree` has left in `after` for one
/// tracked file.  A deployed file has at its destination a link to the
/// source, or a copy of it, and reads there as the source did; where the
/// destination held a regular file or a link to the source, its former
/// content lies at the backup path.  A file that is not deployed has its
/// destination and backup path as they were.
pub open spec fn turn_result(
    tree: Tree,
    after: Tree,
    target: TargetView,
    patterns: Seq<Seq<char>>,
    use_symlinks: bool,
) -> bool {
    let backup = backup_path_of(target.dest);
    if is_deployed(tree, target, patterns) {
        &&& after.dom().contains(target.dest)
        &&& after[target.dest] == deployed_node(tree, target, use_symlinks)
        &&& read_at(after, target.dest) == read_at(tree, target.source)
        &&& plainly_deployed(tree, target) ==> after.dom().contains(backup) && after[backup]
            == backup_node(tree, target)
    } else {
        same_at(tree, after, target.dest) && same_at(tree, after, backup)
    }
}

/// The deploy stage over tracked files that do not get in each other's way,
/// on any tree whose sources are regular files.  It never fails; it leaves
/// for each file what its own turn leaves; and it changes no path that is
/// neither a destination nor a backup path.
pub proof fn lemma_deploy_all_on(
    tree: Tree,
    targets: Seq<TargetView>,
    patterns: Seq<Seq<char>>,
    use_symlinks: bool,
)
    requires
        independent(targets),
        regular_sources(tree, targets),
    ensures
        deploy_all_on(tree, targets, patterns, use_symlinks).1 is None,
        forall|p: Seq<char>|
            !is_touched(targets, p) ==> #[trigger] same_at(
                tree,
                deploy_all_on(tree, targets, patterns, use_symlinks).0,
                p,
            ),
        forall|i: int|
            0 <= i < targets.len() ==> turn_result(
                tree,
                deploy_all_on(tree, targets, patterns, use_symlinks).0,
                #[trigger] targets[i],
                patterns,
                use_symlinks,
            ),
    decreases targets.len(),
{
    if targets.len() > 0 {
        let first = targets[0];
        let rest = targets.drop_first();
        let mid = deploy_on(tree, first, patterns, use_symlinks).0;
        let after = deploy_all_on(mid, rest, patterns, use_symlinks).0;
        assert(sound_target(tree, first)) by {
            assert(targets[0].source != targets[0].dest);
        }
        lemma_deploy_on(tree, first, patterns, use_symlinks);
        assert forall|i: int| 0 <= i < rest.len() implies rest[i] == targets[i + 1] by {}
        assert(independent(rest)) by {
            assert forall|i: int, j: int|
                #![trigger rest[i], rest[j]]
                0 <= i < rest.len() && 0 <= j < rest.len() implies {
                &&& rest[i].source != rest[j].dest
                &&& rest[i].source != backup_path_of(rest[j].dest)
                &&& rest[i].dest != backup_path_of(rest[j].dest)
                &&& i != j ==> rest[i].dest != rest[j].dest && backup_path_of(rest[i].dest)
                    != backup_path_of(rest[j].dest)
            } by {
                assert(rest[i] == targets[i + 1]);
                assert(rest[j] == targets[j + 1]);
                assert(targets[i + 1].source != targets[j + 1].dest);
            }
        }
        assert forall|i: int| 0 < i < targets.len() implies same_at(
            tree,
            mid,
            (#[trigger] targets[i]).source,
        ) && same_at(tree, mid, targets[i].dest) && same_at(
            tree,
            mid,
            backup_path_of(targets[i].dest),
        ) by {
            assert(targets[i].source != targets[0].dest);
            assert(targets[0].source != targets[i].dest);
        }
        assert(regular_sources(mid, rest)) by {
            assert forall|i: int|
                0 <= i < rest.len() && mid.dom().contains((#[trigger] rest[i]).source)
                implies mid[rest[i].source] is File by {
                assert(rest[i] == targets[i + 1]);
                assert(same_at(tree, mid, targets[i + 1].source));
            }
        }
        lemma_deploy_all_on(mid, rest, patterns, use_symlinks);
        assert forall|p: Seq<char>| !is_touched(targets, p) implies same_at(tree, after, p) by {
            assert(p != targets[0].dest && p != backup_path_of(targets[0].dest));
            if is_touched(rest, p) {
                let i = choose|i: int|
                    0 <= i < rest.len() && (p == (#[trigger] rest[i]).dest || p == backup_path_of(
                        rest[i].dest,
                    ));
                assert(rest[i] == targets[i + 1]);
                assert(p == targets[i + 1].dest || p == backup_path_of(targets[i + 1].dest));
            }
            assert(same_at(tree, mid, p));
            assert(same_at(mid, after, p));
        }
        assert forall|p: Seq<char>|
            p == first.source || p == first.dest || p == backup_path_of(
                first.dest,
            ) implies same_at(mid, after, p) by {
            if is_touched(rest, p) {
                let i = choose|i: int|
                    0 <= i < rest.len() && (p == (#[trigger] rest[i]).dest || p == backup_path_of(
                        rest[i].dest,
                    ));
                assert(rest[i] == targets[i + 1]);
                assert(targets[0].source != targets[i + 1].dest);
                assert(targets[i + 1].source != targets[0].dest);
            }
            assert(!is_touched(rest, p));
        }
        assert forall|i: int| 0 <= i < targets.len() implies turn_result(
            tree,
            after,
            #[trigger] targets[i],
            patterns,
            use_symlinks,
        ) by {
            if i == 0 {
                assert(same_at(mid, after, first.source));
                assert(same_at(mid, after, first.dest));
                assert(same_at(mid, after, backup_path_of(first.dest)));
            } else {
                let t = targets[i];
                assert(rest[i - 1] == t);
                assert(turn_result(mid, after, rest[i - 1], patterns, use_symlinks));
                assert(same_at(tree, mid, t.source));
                assert(same_at(tree, mid, t.dest));
                assert(same_at(tree, mid, backup_path_of(t.dest)));
                assert(targets[i].source != targets[i].dest);
                assert(read_at(mid, t.source) == read_at(tree, t.source));
                if plainly_deployed(tree, t) {
                    assert(read_at(mid, t.dest) == read_at(tree, t.dest));
                }
            }
        }
    }
}

/// What two passes in a row leave for one deployed file: after the first,
/// the destination reads as the source did; the second leaves the
/// destination as the first left it, and at the backup path what the first
/// pass had deployed.
pub open spec fn repeated_turn(tree: Tree, first: Tree, second: Tree, target: TargetView) -> bool {
    let backup = backup_path_of(target.dest);
    &&& read_at(first, target.dest) == read_at(tree, target.source)
    &&& second.dom().contains(target.dest) && second[target.dest] == first[target.dest]
    &&& read_at(second, target.dest) == read_at(first, target.dest)
    &&& second.dom().contains(backup) && second[backup] == file_read_at(first, target.dest)
}

/// The tree after a deploy stage.
pub open spec fn tree_after(
    tree: Tree,
    targets: Seq<TargetView>,
    patterns: Seq<Seq<char>>,
    use_symlinks: bool,
) -> Tree {
    deploy_all_on(tree, targets, patterns, use_symlinks).0
}

/// Two passes in a row, with no change to the sources in between, over
/// tracked files that do not get in each other's way.  Neither pass fails.
/// The first leaves at each deployed file's destination what is read at its
/// source.  The second leaves every such destination as the first left it,
/// and at its backup path what the first pass had deployed, whatever backup
/// the first pass made.
pub proof fn lemma_second_pass(
    tree: Tree,
    targets: Seq<TargetView>,
    patterns: Seq<Seq<char>>,
    use_symlinks: bool,
)
    requires
        independent(targets),
        regular_sources(tree, targets),
    ensures
        deploy_all_on(tree, targets, patterns, use_symlinks).1 is None,
        deploy_all_on(
            tree_after(tree, targets, patterns, use_symlinks),
            targets,
            patterns,
            use_symlinks,
        ).1 is None,
        forall|i: int|
            0 <= i < targets.len() && is_deployed(tree, #[trigger] targets[i], patterns)
                ==> repeated_turn(
                tree,
                tree_after(tree, targets, patterns, use_symlinks),
                tree_after(
                    tree_after(tree, targets, patterns, use_symlinks),
                    targets,
                    patterns,
                    use_symlinks,
                ),
                targets[i],
            ),
{
    let first = deploy_all_on(tree, targets, patterns, use_symlinks).0;
    let second = deploy_all_on(first, targets, patterns, use_symlinks).0;
    lemma_deploy_all_on(tree, targets, patterns, use_symlinks);
    assert forall|i: int| 0 <= i < targets.len() implies same_at(
        tree,
        first,
        (#[trigger] targets[i]).source,
    ) by {
        let p = targets[i].source;
        if is_touched(targets, p) {
            let j = choose|j: int|
                0 <= j < targets.len() && (p == (#[trigger] targets[j]).dest || p
                    == backup_path_of(targets[j].dest));
            assert(targets[i].source != targets[j].dest);
        }
    }
    assert(regular_sources(first, targets)) by {
        assert forall|i: int|
            0 <= i < targets.len() && first.dom().contains((#[trigger] targets[i]).source)
            implies first[targets[i].source] is File by {
            assert(same_at(tree, first, targets[i].source));
        }
    }
    lemma_deploy_all_on(first, targets, patterns, use_symlinks);
    assert forall|i: int|
        0 <= i < targets.len() && is_deployed(
            tree,
            #[trigger] targets[i],
            patterns,
        ) implies repeated_turn(tree, first, second, targets[i]) by {
        let t = targets[i];
        assert(turn_result(tree, first, t, patterns, use_symlinks));
        assert(turn_result(first, second, t, patterns, use_symlinks));
        assert(same_at(tree, first, t.source));
        assert(read_at(first, t.source) == read_at(tree, t.source));
        assert(is_deployed(first, t, patterns));
        assert(plainly_deployed(first, t));
    }
}

} // verus!
