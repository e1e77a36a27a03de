//! The tree index: which nodes of the directory tree are visible, and in what
//! order.
//!
//! Reading a directory is the caller's part. A [`TreeWalk`] says which
//! directory it needs next ([`TreeWalk::awaiting`]), takes the listing
//! ([`TreeWalk::supply`]) and goes on until it needs another one or is done.
//! The walk is depth first and in pre-order: a directory's entries follow it
//! at once, one level deeper, if and only if the directory is expanded. Hidden
//! entries are left out. An unreadable directory counts as an empty one.

use crate::explorer::State;
use vstd::prelude::*;
use vstd::string::{StrSliceExecFns, StringExecFns};

verus! {

/// What a node of the tree is.
#[derive(Debug, Clone, Copy, PartialEq, Eq, Structural)]
pub enum NodeKind {
    Directory,
    PlaintextFile,
    EncryptedSecret,
}

/// One entry of a directory, as the file system reports it.
#[derive(Debug, Clone, PartialEq, Eq)]
pub struct DirEntry {
    /// The entry's own name, without the directories above it.
    pub name: String,
    /// The entry's full path.
    pub path: String,
    /// Whether the entry is a directory.
    pub is_dir: bool,
}

/// A directory entry in contracts.
pub struct EntryView {
    pub name: Seq<char>,
    pub path: Seq<char>,
    pub is_dir: bool,
}

impl View for DirEntry {
    type V = EntryView;

    open spec fn view(&self) -> EntryView {
        EntryView { name: self.name@, path: self.path@, is_dir: self.is_dir }
    }
}

/// A visible node of the tree.
#[derive(Debug, Clone, PartialEq, Eq)]
pub struct Node {
    pub path: String,
    pub kind: NodeKind,
    /// How many directories lie between the node and the root of the walk.
    pub depth: usize,
}

/// A node in contracts.
pub struct NodeView {
    pub path: Seq<char>,
    pub kind: NodeKind,
    pub depth: nat,
}

impl View for Node {
    type V = NodeView;

    open spec fn view(&self) -> NodeView {
        NodeView { path: self.path@, kind: self.kind, depth: self.depth as nat }
    }
}

/// An entry is hidden when its name starts with a dot.
pub open spec fn hidden(name: Seq<char>) -> bool {
    name.len() > 0 && name[0] == '.'
}

/// A name carries the secret extension when it ends in `.gpg` and has at least
/// one character before that dot.
pub open spec fn secret_extension(name: Seq<char>) -> bool {
    &&& name.len() > 4
    &&& name[name.len() - 4] == '.'
    &&& name[name.len() - 3] == 'g'
    &&& name[name.len() - 2] == 'p'
    &&& name[name.len() - 1] == 'g'
}

/// The kind of an entry: a directory is a directory whatever its name; a file
/// is a secret if its name carries the secret extension, and plain otherwise.
pub open spec fn kind_of(name: Seq<char>, is_dir: bool) -> NodeKind {
    if is_dir {
        NodeKind::Directory
    } else if secret_extension(name) {
        NodeKind::EncryptedSecret
    } else {
        NodeKind::PlaintextFile
    }
}

/// The node that stands for `entry` at `depth`.
pub open spec fn node_of(entry: EntryView, depth: nat) -> NodeView {
    NodeView { path: entry.path, kind: kind_of(entry.name, entry.is_dir), depth }
}

/// Whether an entry of this name is left out of the tree.
pub fn is_hidden(name: &String) -> (b: bool)
    ensures
        b == hidden(name@),
{
    let s = name.as_str();
    if s.is_empty() {
        false
    } else {
        s.get_char(0) == '.'
    }
}

/// Whether a file of this name is an encrypted secret.
pub fn has_secret_extension(name: &String) -> (b: bool)
    ensures
        b == secret_extension(name@),
{
    let s = name.as_str();
    let n: usize = s.unicode_len();
    if n <= 4 {
        false
    } else {
        s.get_char(n - 4) == '.' && s.get_char(n - 3) == 'g' && s.get_char(n - 2) == 'p'
            && s.get_char(n - 1) == 'g'
    }
}

/// The kind of the entry called `name`.
pub fn classify(name: &String, is_dir: bool) -> (kind: NodeKind)
    ensures
        kind == kind_of(name@, is_dir),
{
    if is_dir {
        NodeKind::Directory
    } else if has_secret_extension(name) {
        NodeKind::EncryptedSecret
    } else {
        NodeKind::PlaintextFile
    }
}

/// The directory whose tree is shown for a user whose home directory is
/// `home`: `ntech/mystiko` below it.
pub fn root_under(home: &str) -> (root: String)
    ensures
        root@ == home@ + "/ntech/mystiko"@,
{
    let mut root = home.to_owned();
    root.append("/ntech/mystiko");
    root
}

/// A walk in contracts.
pub struct WalkView {
    /// The entries still to visit, one sequence for each directory that the
    /// walk is inside of, the outermost first. The entries of `pending[i]`
    /// have depth `i`.
    pub pending: Seq<Seq<EntryView>>,
    /// The nodes found so far, in order.
    pub nodes: Seq<NodeView>,
    /// The directory whose listing the walk waits for.
    pub awaiting: Option<Seq<char>>,
}

/// Where a walk that is not waiting gets to on its own: it visits pending
/// entries until it has shown an expanded directory, whose listing it then
/// waits for, or until nothing is pending.
pub open spec fn advance(
    pending: Seq<Seq<EntryView>>,
    nodes: Seq<NodeView>,
    expanded: Set<Seq<char>>,
) -> WalkView
    decreases pending.len(), (if pending.len() > 0 {
            pending.last().len()
        } else {
            0
        }),
{
    if pending.len() == 0 {
        WalkView { pending, nodes, awaiting: None }
    } else if pending.last().len() == 0 {
        advance(pending.drop_last(), nodes, expanded)
    } else {
        let entry = pending.last()[0];
        let rest = pending.drop_last().push(pending.last().drop_first());
        if hidden(entry.name) {
            advance(rest, nodes, expanded)
        } else {
            let shown = nodes.push(node_of(entry, (pending.len() - 1) as nat));
            if entry.is_dir && expanded.contains(entry.path) {
                WalkView { pending: rest, nodes: shown, awaiting: Some(entry.path) }
            } else {
                advance(rest, shown, expanded)
            }
        }
    }
}

/// The walk after it was given `listing` for the directory it waited for.
/// A walk that waits for nothing is left as it is.
pub open spec fn supplied(w: WalkView, listing: Seq<EntryView>, expanded: Set<Seq<char>>) -> WalkView {
    if w.awaiting is None {
        w
    } else {
        advance(w.pending.push(listing), w.nodes, expanded)
    }
}

/// What a listing holds, in contracts. A directory that could not be read
/// counts as empty.
pub open spec fn listing_view(listing: Option<Vec<DirEntry>>) -> Seq<EntryView> {
    match listing {
        Some(entries) => entries@.map_values(|e: DirEntry| e@),
        None => Seq::empty(),
    }
}

/// The entries that a stored frame still holds, in the order of the walk. A
/// frame is stored last entry first, so that the next entry is taken off its
/// end.
spec fn frame_view(stored: Seq<DirEntry>) -> Seq<EntryView> {
    Seq::new(stored.len(), |i: int| stored[stored.len() - 1 - i]@)
}

/// A walk over the visible part of a directory tree.
pub struct TreeWalk {
    frames: Vec<Vec<DirEntry>>,
    nodes: Vec<Node>,
    awaiting: Option<String>,
}

impl View for TreeWalk {
    type V = WalkView;

    closed spec fn view(&self) -> WalkView {
        WalkView {
            pending: self.frames@.map_values(|f: Vec<DirEntry>| frame_view(f@)),
            nodes: self.nodes@.map_values(|n: Node| n@),
            awaiting: match self.awaiting {
                Some(path) => Some(path@),
                None => None,
            },
        }
    }
}

/// Turns a listing round, so that its first entry is the last one stored.
fn stored_frame(listing: Option<Vec<DirEntry>>) -> (stored: Vec<DirEntry>)
    ensures
        frame_view(stored@) == listing_view(listing),
{
    let mut entries = match listing {
        Some(entries) => entries,
        None => Vec::new(),
    };
    let ghost all = entries@;
    let mut stored: Vec<DirEntry> = Vec::new();
    while entries.len() > 0
        invariant
            entries@.len() + stored@.len() == all.len(),
            forall|i: int| 0 <= i < entries@.len() ==> entries@[i] == all[i],
            forall|j: int| 0 <= j < stored@.len() ==> stored@[j] == all[all.len() - 1 - j],
        decreases entries@.len(),
    {
        let entry = entries.pop().unwrap();
        stored.push(entry);
    }
    assert(frame_view(stored@) =~= all.map_values(|e: DirEntry| e@));
    stored
}

impl TreeWalk {
    /// A walk below `root`. It waits for the listing of `root`, whose entries
    /// have depth 0; `root` itself is no node of the tree.
    pub fn start(root: String) -> (walk: Self)
        ensures
            walk@ == (WalkView {
                pending: Seq::empty(),
                nodes: Seq::empty(),
                awaiting: Some(root@),
            }),
    {
        let walk = TreeWalk { frames: Vec::new(), nodes: Vec::new(), awaiting: Some(root) };
        assert(walk@.pending =~= Seq::empty());
        assert(walk@.nodes =~= Seq::empty());
        walk
    }

    /// The directory whose listing the walk needs next. `None` when the walk
    /// is done.
    pub fn awaiting(&self) -> (path: Option<&String>)
        ensures
            match path {
                Some(p) => self@.awaiting == Some(p@),
                None => self@.awaiting is None,
            },
    {
        self.awaiting.as_ref()
    }

    /// Whether the walk is done: it waits for no listing.
    pub fn is_done(&self) -> (done: bool)
        ensures
            done == (self@.awaiting is None),
    {
        self.awaiting.is_none()
    }

    /// Gives the walk the listing of the directory it waits for, `None` if the
    /// directory could not be read. The walk goes on until it needs another
    /// listing or is done. `state` says which directories are expanded.
    pub fn supply(&mut self, listing: Option<Vec<DirEntry>>, state: &State)
        ensures
            final(self)@ == supplied(old(self)@, listing_view(listing), state@.expanded),
    {
        if self.awaiting.is_none() {
            return ;
        }
        let frame = stored_frame(listing);
        self.frames.push(frame);
        self.awaiting = None;
        let ghost expanded = state@.expanded;
        let ghost goal = advance(self@.pending, self@.nodes, expanded);
        assert(self@.pending =~= old(self)@.pending.push(listing_view(listing)));
        let mut moving = true;
        while moving
            invariant
                expanded == state@.expanded,
                moving ==> self@.awaiting is None && advance(self@.pending, self@.nodes, expanded)
                    == goal,
                !moving ==> self@ == goal,
            decreases
                    (if moving {
                        1nat
                    } else {
                        0nat
                    }),
                    self@.pending.len(),
                    (if self@.pending.len() > 0 {
                        self@.pending.last().len()
                    } else {
                        0
                    }),
        {
            let ghost before = self@;
            match self.frames.pop() {
                None => {
                    assert(self@.pending =~= before.pending);
                    moving = false;
                },
                Some(mut top) => {
                    let ghost below = self@.pending;
                    let ghost top_before = frame_view(top@);
                    assert(below =~= before.pending.drop_last());
                    assert(top_before == before.pending.last());
                    match top.pop() {
                        None => {},
                        Some(entry) => {
                            assert(entry@ == top_before[0]);
                            assert(frame_view(top@) =~= top_before.drop_first());
                            self.frames.push(top);
                            assert(self@.pending =~= below.push(top_before.drop_first()));
                            if !is_hidden(&entry.name) {
                                let depth: usize = self.frames.len() - 1;
                                let kind = classify(&entry.name, entry.is_dir);
                                let descend = entry.is_dir && state.is_expanded(&entry.path);
                                if descend {
                                    self.awaiting = Some(entry.path.clone());
                                    moving = false;
                                }
                                let ghost shown = self@.nodes;
                                self.nodes.push(Node { path: entry.path, kind, depth });
                                assert(self@.nodes =~= shown.push(
                                    node_of(entry@, (before.pending.len() - 1) as nat),
                                ));
                            }
                        },
                    }
                },
            }
        }
    }

    /// The nodes found so far, in the order of the tree.
    pub fn nodes(&self) -> (nodes: &Vec<Node>)
        ensures
            nodes@.map_values(|n: Node| n@) == self@.nodes,
    {
        &self.nodes
    }

    /// Ends the walk and hands out the nodes it found, in the order of the
    /// tree.
    pub fn into_nodes(self) -> (nodes: Vec<Node>)
        ensures
            nodes@.map_values(|n: Node| n@) == self@.nodes,
    {
        self.nodes
    }
}

} // verus!
