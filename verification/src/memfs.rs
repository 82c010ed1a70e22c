//! A file tree held in memory: the reference meaning of the file operations
//! of a deployment, and a tree on which a pass can be tried without touching
//! the disk.

use vstd::prelude::*;
use crate::assoc::{
    assoc, distinct_keys, has_key, lemma_assoc_dom, lemma_assoc_push, lemma_assoc_update,
    lemma_assoc_value,
};
use crate::error::{IoProblem, SyncError};
use crate::plan::{action_error, actions_view, Action, ActionView};

verus! {

/// What lies at a path: a regular file with its bytes and permission bits, or
/// a symbolic link with its target.
#[derive(Clone, Debug, PartialEq, Eq)]
pub enum Node {
    File { content: Vec<u8>, mode: u32 },
    Link { target: String },
}

/// A node as contracts see it.
pub enum NodeView {
    File { content: Seq<u8>, mode: u32 },
    Link { target: Seq<char> },
}

impl View for Node {
    type V = NodeView;

    open spec fn view(&self) -> NodeView {
        match self {
            Node::File { content, mode } => NodeView::File { content: content@, mode: *mode },
            Node::Link { target } => NodeView::Link { target: target@ },
        }
    }
}

/// A file tree as contracts see it: what lies at each path.
pub type Tree = Map<Seq<char>, NodeView>;

/// The bytes and permission bits that are read at `path`: those of the
/// regular file there, or of the regular file that a link there points to.
/// Nothing is read where there is nothing, or a link that leads to no
/// regular file.
pub open spec fn read_at(tree: Tree, path: Seq<char>) -> Option<(Seq<u8>, u32)> {
    if !tree.dom().contains(path) {
        None
    } else {
        match tree[path] {
            NodeView::File { content, mode } => Some((content, mode)),
            NodeView::Link { target } => {
                if tree.dom().contains(target) && tree[target] is File {
                    Some((tree[target]->content, tree[target]->mode))
                } else {
                    None
                }
            },
        }
    }
}

/// The regular file that holds what is read at `path`.
pub open spec fn file_read_at(tree: Tree, path: Seq<char>) -> NodeView {
    match read_at(tree, path) {
        Some((content, mode)) => NodeView::File { content, mode },
        None => arbitrary(),
    }
}

/// Whether `path` exists: whether something can be read there.
pub open spec fn exists_at(tree: Tree, path: Seq<char>) -> bool {
    read_at(tree, path) is Some
}

/// The path of the regular file that `path` leads to, itself or through a
/// link.
pub open spec fn file_behind(tree: Tree, path: Seq<char>) -> Option<Seq<char>> {
    if !tree.dom().contains(path) {
        None
    } else {
        match tree[path] {
            NodeView::File { .. } => Some(path),
            NodeView::Link { target } => {
                if tree.dom().contains(target) && tree[target] is File {
                    Some(target)
                } else {
                    None
                }
            },
        }
    }
}

/// The tree after one file operation, or the error with which the operation
/// fails; a failed operation changes nothing.  A copy puts a regular file
/// with the source's bytes and permission bits at its destination, in place
/// of what was there.  A link replaces what was at its destination.
/// Permission bits are set on the regular file that the destination leads to.
pub open spec fn apply_action(tree: Tree, action: ActionView) -> Result<Tree, SyncError> {
    match action {
        ActionView::Backup { from, to } => match read_at(tree, from) {
            Some((content, mode)) => Ok(tree.insert(to, NodeView::File { content, mode })),
            None => Err(action_error(action, true)),
        },
        ActionView::Symlink { source, dest } => Ok(
            tree.insert(dest, NodeView::Link { target: source }),
        ),
        ActionView::Copy { source, dest } => match read_at(tree, source) {
            Some((content, mode)) => Ok(tree.insert(dest, NodeView::File { content, mode })),
            None => Err(action_error(action, true)),
        },
        ActionView::CopyPermissions { source, dest } => match read_at(tree, source) {
            Some((_, mode)) => match file_behind(tree, dest) {
                Some(file) => Ok(
                    tree.insert(file, NodeView::File { content: tree[file]->content, mode }),
                ),
                None => Err(action_error(action, false)),
            },
            None => Err(action_error(action, true)),
        },
    }
}

/// The tree after the operations `actions`, done in order up to the first
/// that fails, and that failure if there is one.
pub open spec fn apply_actions(tree: Tree, actions: Seq<ActionView>) -> (Tree, Option<SyncError>)
    decreases actions.len(),
{
    if actions.len() == 0 {
        (tree, None)
    } else {
        match apply_action(tree, actions[0]) {
            Ok(next) => apply_actions(next, actions.drop_first()),
            Err(e) => (tree, Some(e)),
        }
    }
}

/// A path with what lies there.
#[derive(Debug)]
struct Entry {
    path: String,
    node: Node,
}

impl View for Entry {
    type V = (Seq<char>, NodeView);

    closed spec fn view(&self) -> (Seq<char>, NodeView) {
        (self.path@, self.node@)
    }
}

/// A file tree in memory.
#[derive(Debug)]
pub struct MemoryFs {
    entries: Vec<Entry>,
}

impl View for MemoryFs {
    type V = Tree;

    closed spec fn view(&self) -> Tree {
        assoc(self.pairs())
    }
}

impl MemoryFs {
    spec fn pairs(&self) -> Seq<(Seq<char>, NodeView)> {
        self.entries@.map_values(|e: Entry| e@)
    }

    #[verifier::type_invariant]
    spec fn inv(&self) -> bool {
        distinct_keys(self.pairs())
    }

    /// The empty tree.
    pub fn new() -> (r: MemoryFs)
        ensures
            r@ == Tree::empty(),
    {
        let r = MemoryFs { entries: Vec::new() };
        assert(r.pairs() =~= Seq::empty());
        r
    }

    fn position(&self, path: &String) -> (r: Option<usize>)
        ensures
            match r {
                Some(i) => i < self.entries@.len() && self.entries@[i as int].path@ == path@,
                None => !has_key(self.pairs(), path@),
            },
    {
        let mut i: usize = 0;
        while i < self.entries.len()
            invariant
                i <= self.entries@.len(),
                forall|j: int| 0 <= j < i ==> self.entries@[j].path@ != path@,
            decreases self.entries@.len() - i,
        {
            if self.entries[i].path == *path {
                return Some(i);
            }
            i += 1;
        }
        assert(!has_key(self.pairs(), path@)) by {
            if has_key(self.pairs(), path@) {
                let j = choose|j: int|
                    0 <= j < self.pairs().len() && (#[trigger] self.pairs()[j]).0 == path@;
                assert(self.entries@[j].path@ == path@);
            }
        }
        None
    }

    /// What lies at `path`, if anything does.
    pub fn node_at(&self, path: &str) -> (r: Option<&Node>)
        ensures
            match r {
                Some(n) => self@.dom().contains(path@) && self@[path@] == n@,
                None => !self@.dom().contains(path@),
            },
    {
        proof {
            use_type_invariant(self);
            lemma_assoc_dom(self.pairs(), path@);
        }
        let key = path.to_string();
        match self.position(&key) {
            Some(i) => {
                proof {
                    lemma_assoc_value(self.pairs(), i as int);
                }
                Some(&self.entries[i].node)
            },
            None => None,
        }
    }

    /// Puts `node` at `path`, in place of what was there.
    pub fn put(&mut self, path: String, node: Node)
        ensures
            final(self)@ == old(self)@.insert(path@, node@),
    {
        proof {
            use_type_invariant(&*self);
        }
        let ghost before = self.pairs();
        let ghost key = path@;
        let ghost value = node@;
        let found = self.position(&path);
        let mut entries: Vec<Entry> = Vec::new();
        std::mem::swap(&mut self.entries, &mut entries);
        match found {
            Some(i) => {
                entries.set(i, Entry { path, node });
                proof {
                    lemma_assoc_update(before, i as int, value);
                    assert(entries@.map_values(|e: Entry| e@) =~= before.update(
                        i as int,
                        (key, value),
                    ));
                }
            },
            None => {
                entries.push(Entry { path, node });
                proof {
                    lemma_assoc_push(before, key, value);
                    assert(entries@.map_values(|e: Entry| e@) =~= before.push((key, value)));
                }
            },
        }
        self.entries = entries;
    }

    /// Puts a regular file with these bytes and permission bits at `path`.
    pub fn put_file(&mut self, path: &str, content: Vec<u8>, mode: u32)
        ensures
            final(self)@ == old(self)@.insert(path@, NodeView::File { content: content@, mode }),
    {
        self.put(path.to_string(), Node::File { content, mode });
    }

    /// Puts a symbolic link to `target` at `path`.
    pub fn put_link(&mut self, path: &str, target: &str)
        ensures
            final(self)@ == old(self)@.insert(path@, NodeView::Link { target: target@ }),
    {
        self.put(path.to_string(), Node::Link { target: target.to_string() });
    }

    /// The path of the regular file that `path` leads to.
    fn resolve(&self, path: &str) -> (r: Option<String>)
        ensures
            match r {
                Some(p) => file_behind(self@, path@) == Some(p@),
                None => file_behind(self@, path@) is None,
            },
    {
        match self.node_at(path) {
            Some(Node::File { .. }) => Some(path.to_string()),
            Some(Node::Link { target }) => match self.node_at(target.as_str()) {
                Some(Node::File { .. }) => Some(target.clone()),
                _ => None,
            },
            None => None,
        }
    }

    /// The bytes and permission bits that are read at `path`.
    pub fn read(&self, path: &str) -> (r: Option<(Vec<u8>, u32)>)
        ensures
            match r {
                Some((content, mode)) => read_at(self@, path@) == Some((content@, mode)),
                None => read_at(self@, path@) is None,
            },
    {
        match self.node_at(path) {
            Some(Node::File { content, mode }) => Some((content.clone(), *mode)),
            Some(Node::Link { target }) => match self.node_at(target.as_str()) {
                Some(Node::File { content, mode }) => Some((content.clone(), *mode)),
                _ => None,
            },
            None => None,
        }
    }

    /// Whether `path` exists.
    pub fn contains(&self, path: &str) -> (r: bool)
        ensures
            r == exists_at(self@, path@),
    {
        self.read(path).is_some()
    }

    /// Does one file operation.  A failed operation changes nothing.
    pub fn apply(&mut self, action: &Action) -> (r: Result<(), SyncError>)
        ensures
            match apply_action(old(self)@, action@) {
                Ok(tree) => r is Ok && final(self)@ == tree,
                Err(e) => r == Err::<(), SyncError>(e) && final(self)@ == old(self)@,
            },
    {
        match action {
            Action::Backup { from, to } => match self.read(from.as_str()) {
                Some((content, mode)) => {
                    self.put(to.clone(), Node::File { content, mode });
                    Ok(())
                },
                None => Err(SyncError::IOFailure(IoProblem::Backup)),
            },
            Action::Symlink { source, dest } => {
                self.put(dest.clone(), Node::Link { target: source.clone() });
                Ok(())
            },
            Action::Copy { source, dest } => match self.read(source.as_str()) {
                Some((content, mode)) => {
                    self.put(dest.clone(), Node::File { content, mode });
                    Ok(())
                },
                None => Err(SyncError::IOFailure(IoProblem::Copy)),
            },
            Action::CopyPermissions { source, dest } => match self.read(source.as_str()) {
                Some((_, mode)) => match self.resolve(dest.as_str()) {
                    Some(file) => {
                        match self.read(file.as_str()) {
                            Some((content, _)) => {
                                self.put(file, Node::File { content, mode });
                                Ok(())
                            },
                            None => Err(SyncError::IOFailure(IoProblem::SetPermissions)),
                        }
                    },
                    None => Err(SyncError::IOFailure(IoProblem::SetPermissions)),
                },
                None => Err(SyncError::IOFailure(IoProblem::Metadata)),
            },
        }
    }

    /// Does the operations in order, up to the first that fails.
    pub fn apply_all(&mut self, actions: &Vec<Action>) -> (r: Result<(), SyncError>)
        ensures
            final(self)@ == apply_actions(old(self)@, actions_view(actions@)).0,
            match apply_actions(old(self)@, actions_view(actions@)).1 {
                Some(e) => r == Err::<(), SyncError>(e),
                None => r is Ok,
            },
    {
        let ghost all = actions_view(actions@);
        let ghost start = self@;
        let mut i: usize = 0;
        assert(all.skip(0) =~= all);
        while i < actions.len()
            invariant
                i <= actions@.len(),
                all == actions_view(actions@),
                start == old(self)@,
                apply_actions(start, all) == apply_actions(self@, all.skip(i as int)),
            decreases actions@.len() - i,
        {
            proof {
                assert(all.skip(i as int).drop_first() =~= all.skip(i as int + 1));
                assert(all.skip(i as int)[0] == actions@[i as int]@);
            }
            match self.apply(&actions[i]) {
                Ok(()) => {},
                Err(e) => {
                    return Err(e);
                },
            }
            i += 1;
        }
        Ok(())
    }
}

} // verus!
