//! What a complete walk lists.
//!
//! A [`crate::tree::TreeWalk`] is driven one listing at a time. This module
//! says what that adds up to. A directory tree is modelled as the entries of
//! the root, each with the entries that a listing of it gives
//! ([`TreeEntry`]). [`visible`] is the list of nodes that should be shown for
//! such a tree. [`lemma_walk_lists_visible`] proves that a walk which is
//! given, for each directory it asks for, that directory's listing, asks for
//! exactly the expanded visible directories and ends with exactly
//! [`visible`].

use crate::tree::{advance, hidden, node_of, supplied, EntryView, NodeView, WalkView};
use vstd::prelude::*;

verus! {

/// An entry of a directory together with what a listing of the entry gives:
/// its own entries if it is a directory that can be read, and nothing
/// otherwise.
pub struct TreeEntry {
    pub entry: EntryView,
    pub children: Seq<TreeEntry>,
}

/// The listing of a directory whose entries are `tree`.
pub open spec fn entries_of(tree: Seq<TreeEntry>) -> Seq<EntryView> {
    tree.map_values(|t: TreeEntry| t.entry)
}

/// Whether the entries below `entry` are shown: it is not hidden, it is a
/// directory, and its path is expanded.
pub open spec fn shows_children(entry: EntryView, expanded: Set<Seq<char>>) -> bool {
    !hidden(entry.name) && entry.is_dir && expanded.contains(entry.path)
}

/// The visible nodes of a directory whose entries are `tree` and have depth
/// `depth`: every entry that is not hidden, in the order of the listing, each
/// followed at once by the visible nodes below it if it shows its children.
pub open spec fn visible(tree: Seq<TreeEntry>, depth: nat, expanded: Set<Seq<char>>) -> Seq<
    NodeView,
>
    decreases tree,
{
    if tree.len() == 0 {
        Seq::empty()
    } else {
        let first = tree[0];
        let others = visible(tree.drop_first(), depth, expanded);
        if hidden(first.entry.name) {
            others
        } else if shows_children(first.entry, expanded) {
            seq![node_of(first.entry, depth)] + visible(first.children, depth + 1, expanded)
                + others
        } else {
            seq![node_of(first.entry, depth)] + others
        }
    }
}

/// A directory that a walk asks for, with the listing it is given.
pub struct Answer {
    pub path: Seq<char>,
    pub listing: Seq<EntryView>,
}

/// The directories below `tree` that show their children, each with its
/// listing, in the order of the tree.
pub open spec fn answers_below(tree: Seq<TreeEntry>, expanded: Set<Seq<char>>) -> Seq<Answer>
    decreases tree,
{
    if tree.len() == 0 {
        Seq::empty()
    } else {
        let first = tree[0];
        let others = answers_below(tree.drop_first(), expanded);
        if shows_children(first.entry, expanded) {
            seq![Answer { path: first.entry.path, listing: entries_of(first.children) }]
                + answers_below(first.children, expanded) + others
        } else {
            others
        }
    }
}

/// The walk after it was given `answers` one by one. `None` if the walk, at
/// some point, did not wait for the directory of the answer that was next.
pub open spec fn driven(w: WalkView, answers: Seq<Answer>, expanded: Set<Seq<char>>) -> Option<
    WalkView,
>
    decreases answers.len(),
{
    if answers.len() == 0 {
        Some(w)
    } else if w.awaiting != Some(answers[0].path) {
        None
    } else {
        driven(supplied(w, answers[0].listing, expanded), answers.drop_first(), expanded)
    }
}

/// A walk that has just entered a directory whose entries are `tree`, and is
/// then given the answers for everything below, stands where a walk stands
/// that has `visible(tree)` behind it and goes on with what was pending
/// before.
proof fn lemma_walk_one_directory(
    pending: Seq<Seq<EntryView>>,
    nodes: Seq<NodeView>,
    tree: Seq<TreeEntry>,
    later: Seq<Answer>,
    expanded: Set<Seq<char>>,
)
    ensures
        driven(
            advance(pending.push(entries_of(tree)), nodes, expanded),
            answers_below(tree, expanded) + later,
            expanded,
        ) == driven(
            advance(pending, nodes + visible(tree, pending.len(), expanded), expanded),
            later,
            expanded,
        ),
    decreases tree,
{
    let depth: nat = pending.len();
    let inside = pending.push(entries_of(tree));
    assert(inside.drop_last() =~= pending);
    assert(inside.last() == entries_of(tree));
    if tree.len() == 0 {
        assert(nodes + visible(tree, depth, expanded) =~= nodes);
        assert(answers_below(tree, expanded) + later =~= later);
    } else {
        let first = tree[0];
        let rest = tree.drop_first();
        assert(entries_of(tree)[0] == first.entry);
        assert(entries_of(tree).drop_first() =~= entries_of(rest));
        let next = pending.push(entries_of(rest));
        assert(inside.drop_last().push(inside.last().drop_first()) == next);
        let node = node_of(first.entry, depth);
        if hidden(first.entry.name) {
            lemma_walk_one_directory(pending, nodes, rest, later, expanded);
        } else if shows_children(first.entry, expanded) {
            let shown = nodes.push(node);
            let entered = WalkView { pending: next, nodes: shown, awaiting: Some(first.entry.path) };
            assert(advance(inside, nodes, expanded) == entered);
            let answer = Answer { path: first.entry.path, listing: entries_of(first.children) };
            let below = answers_below(first.children, expanded);
            let after = answers_below(rest, expanded);
            let all = answers_below(tree, expanded) + later;
            assert(all[0] == answer);
            assert(all.drop_first() =~= below + (after + later));
            assert(supplied(entered, answer.listing, expanded) == advance(
                next.push(entries_of(first.children)),
                shown,
                expanded,
            ));
            lemma_walk_one_directory(next, shown, first.children, after + later, expanded);
            let deeper = shown + visible(first.children, next.len(), expanded);
            lemma_walk_one_directory(pending, deeper, rest, later, expanded);
            assert(deeper + visible(rest, depth, expanded) =~= nodes + visible(
                tree,
                depth,
                expanded,
            ));
        } else {
            let shown = nodes.push(node);
            lemma_walk_one_directory(pending, shown, rest, later, expanded);
            assert(shown + visible(rest, depth, expanded) =~= nodes + visible(
                tree,
                depth,
                expanded,
            ));
        }
    }
}

/// A walk below `root` that is given the listing of `root` and then, for each
/// directory it asks for, that directory's listing, asks for exactly the
/// directories of the tree that show their children, in the order of the
/// tree, and ends, waiting for nothing, with the visible nodes of the tree:
/// no more, no fewer, and in that order.
pub proof fn lemma_walk_lists_visible(
    root: Seq<char>,
    tree: Seq<TreeEntry>,
    expanded: Set<Seq<char>>,
)
    ensures
        driven(
            WalkView { pending: Seq::empty(), nodes: Seq::empty(), awaiting: Some(root) },
            seq![Answer { path: root, listing: entries_of(tree) }] + answers_below(tree, expanded),
            expanded,
        ) == Some(
            WalkView {
                pending: Seq::empty(),
                nodes: visible(tree, 0, expanded),
                awaiting: None,
            },
        ),
{
    let start = WalkView {
        pending: Seq::<Seq<EntryView>>::empty(),
        nodes: Seq::<NodeView>::empty(),
        awaiting: Some(root),
    };
    let first = Answer { path: root, listing: entries_of(tree) };
    let below = answers_below(tree, expanded);
    let all = seq![first] + below;
    assert(all[0] == first);
    assert(all.drop_first() =~= below + Seq::<Answer>::empty());
    lemma_walk_one_directory(
        Seq::empty(),
        Seq::empty(),
        tree,
        Seq::empty(),
        expanded,
    );
    assert(Seq::<NodeView>::empty() + visible(tree, 0, expanded) =~= visible(tree, 0, expanded));
}

/// The entries below a node are listed, right after the node, if and only if
/// the node is a directory whose path is expanded: the visible nodes of a
/// directory whose first entry is not hidden start with that entry's node,
/// go on with the visible nodes below it exactly when it is an expanded
/// directory, and end with the visible nodes of the other entries.
pub proof fn lemma_children_listed_iff_expanded(
    first: TreeEntry,
    others: Seq<TreeEntry>,
    depth: nat,
    expanded: Set<Seq<char>>,
)
    requires
        !hidden(first.entry.name),
    ensures
        first.entry.is_dir && expanded.contains(first.entry.path) ==> visible(
            seq![first] + others,
            depth,
            expanded,
        ) == seq![node_of(first.entry, depth)] + visible(first.children, depth + 1, expanded)
            + visible(others, depth, expanded),
        !(first.entry.is_dir && expanded.contains(first.entry.path)) ==> visible(
            seq![first] + others,
            depth,
            expanded,
        ) == seq![node_of(first.entry, depth)] + visible(others, depth, expanded),
{
    let tree = seq![first] + others;
    assert(tree[0] == first);
    assert(tree.drop_first() =~= others);
}

/// A hidden entry is not listed, and neither is anything below it.
pub proof fn lemma_hidden_not_listed(
    first: TreeEntry,
    others: Seq<TreeEntry>,
    depth: nat,
    expanded: Set<Seq<char>>,
)
    requires
        hidden(first.entry.name),
    ensures
        visible(seq![first] + others, depth, expanded) == visible(others, depth, expanded),
{
    let tree = seq![first] + others;
    assert(tree[0] == first);
    assert(tree.drop_first() =~= others);
}

} // verus!
