//! The listing held against a directory tree.
//!
//! What a directory holds is said here by recursion over the tree: the
//! templates of a directory are those of its entries in order, a file giving
//! itself if it has the template marker and a directory giving its own
//! templates. A walk goes through the same tree with a list of pending
//! entries instead. This module shows that the two agree: as long as every
//! listing that is reported to a walk is the listing of the tree, the walk
//! ends a layer with exactly the templates that the recursion gives for it.

use crate::template::loader::has_template_marker;
use crate::template::walk::{
    after_listing, child_path, drained, stacked, DirEntry, EntryView, WalkStage, WalkState,
};
use vstd::prelude::*;

verus! {

/// A file or a directory of a tree, with what the directory holds.
pub ghost enum TreeNode {
    /// A file.
    File {
        /// The name of the file.
        name: Seq<char>,
    },
    /// A directory.
    Dir {
        /// The name of the directory.
        name: Seq<char>,
        /// The entries of the directory, in the order of its listing.
        entries: Seq<TreeNode>,
    },
}

impl TreeNode {
    /// The name of the node.
    pub open spec fn label(self) -> Seq<char> {
        match self {
            TreeNode::File { name } => name,
            TreeNode::Dir { name, .. } => name,
        }
    }

    /// The entries of the node; a file has none.
    pub open spec fn children(self) -> Seq<TreeNode> {
        match self {
            TreeNode::File { .. } => Seq::empty(),
            TreeNode::Dir { entries, .. } => entries,
        }
    }
}

/// The templates of the directory `dir` that holds `entries`: those of each
/// entry, in the order of the entries.
pub open spec fn gathered(dir: Seq<char>, entries: Seq<TreeNode>) -> Seq<Seq<char>>
    decreases entries,
{
    if entries.len() == 0 {
        Seq::empty()
    } else {
        gathered_node(dir, entries[0]) + gathered(dir, entries.drop_first())
    }
}

/// The templates of one entry of the directory `dir`: a file is one if it has
/// the template marker, and a directory gives the templates that it holds.
pub open spec fn gathered_node(dir: Seq<char>, node: TreeNode) -> Seq<Seq<char>>
    decreases node,
{
    match node {
        TreeNode::File { name } => if has_template_marker(child_path(dir, name)) {
            seq![child_path(dir, name)]
        } else {
            Seq::empty()
        },
        TreeNode::Dir { name, entries } => gathered(child_path(dir, name), entries),
    }
}

/// An entry of the tree that a walk has yet to look at, with the directory
/// that it is in.
pub ghost struct Planned {
    /// The directory that holds the entry.
    pub dir: Seq<char>,
    /// The entry.
    pub node: TreeNode,
}

/// What the tree holds for the work that a walk has before it.
pub ghost struct Outlook {
    /// The entries of the directory whose listing is awaited.
    pub listing: Seq<TreeNode>,
    /// The entries of the tree behind the pending entries of the walk, one
    /// for one.
    pub plan: Seq<Planned>,
}

/// The entries of `dir` as planned entries, the first entry last, so that it
/// is looked at first.
pub open spec fn planned(dir: Seq<char>, entries: Seq<TreeNode>) -> Seq<Planned> {
    Seq::new(entries.len(), |k: int| Planned { dir, node: entries[entries.len() - 1 - k] })
}

/// The templates that planned entries give, taken from the last one down.
pub open spec fn todo(plan: Seq<Planned>) -> Seq<Seq<char>>
    decreases plan.len(),
{
    if plan.len() == 0 {
        Seq::empty()
    } else {
        gathered_node(plan.last().dir, plan.last().node) + todo(plan.drop_last())
    }
}

/// Whether the pending entries are those of the plan, one for one: each has
/// the path of its entry of the tree and is a directory if that is one.
pub open spec fn tracks(pending: Seq<EntryView>, plan: Seq<Planned>) -> bool {
    &&& pending.len() == plan.len()
    &&& forall|i: int|
        0 <= i < pending.len() ==> (#[trigger] pending[i]).path == child_path(
            plan[i].dir,
            plan[i].node.label(),
        ) && pending[i].is_dir == (plan[i].node is Dir)
}

/// Whether a listing is the listing of `entries`: it names them in order and
/// says of each whether it is a directory.
pub open spec fn lists(listing: Seq<DirEntry>, entries: Seq<TreeNode>) -> bool {
    &&& listing.len() == entries.len()
    &&& forall|i: int|
        0 <= i < listing.len() ==> (#[trigger] listing[i]).name@ == entries[i].label()
            && listing[i].is_dir == (entries[i] is Dir)
}

/// The plan after the entries from the last one down to the first directory
/// are dealt with, and that directory, if there is one.
pub open spec fn drained_plan(plan: Seq<Planned>) -> (Seq<Planned>, Option<Planned>)
    decreases plan.len(),
{
    if plan.len() == 0 {
        (plan, None)
    } else if plan.last().node is Dir {
        (plan.drop_last(), Some(plan.last()))
    } else {
        drained_plan(plan.drop_last())
    }
}

/// The outlook after the listing that was awaited has arrived.
pub open spec fn next_outlook(s: WalkState, o: Outlook) -> Outlook {
    let (rest, next) = drained_plan(o.plan + planned(s.current, o.listing));
    match next {
        Some(entry) => Outlook { listing: entry.node.children(), plan: rest },
        None => Outlook { listing: Seq::empty(), plan: rest },
    }
}

/// The templates that a walk holds at the end of the layer, if every listing
/// is that of the tree: those it holds, those of the directory whose listing
/// is awaited, and those of the pending entries.
pub open spec fn expected(s: WalkState, o: Outlook) -> Seq<Seq<char>> {
    s.templates + gathered(s.current, o.listing) + todo(o.plan)
}

proof fn lemma_todo_of_planned(plan: Seq<Planned>, dir: Seq<char>, entries: Seq<TreeNode>)
    ensures
        todo(plan + planned(dir, entries)) == gathered(dir, entries) + todo(plan),
    decreases entries.len(),
{
    if entries.len() == 0 {
        assert(plan + planned(dir, entries) =~= plan);
        assert(gathered(dir, entries) + todo(plan) =~= todo(plan));
    } else {
        let all = plan + planned(dir, entries);
        let fewer = entries.drop_first();
        assert(all.last() == Planned { dir, node: entries[0] });
        assert(all.drop_last() =~= plan + planned(dir, fewer));
        lemma_todo_of_planned(plan, dir, fewer);
        assert(todo(all) =~= gathered(dir, entries) + todo(plan));
    }
}

proof fn lemma_tracks_stacked(
    pending: Seq<EntryView>,
    plan: Seq<Planned>,
    dir: Seq<char>,
    listing: Seq<DirEntry>,
    entries: Seq<TreeNode>,
)
    requires
        tracks(pending, plan),
        lists(listing, entries),
    ensures
        tracks(pending + stacked(dir, listing), plan + planned(dir, entries)),
{
    let more = pending + stacked(dir, listing);
    let longer = plan + planned(dir, entries);
    assert forall|i: int| 0 <= i < more.len() implies (#[trigger] more[i]).path == child_path(
        longer[i].dir,
        longer[i].node.label(),
    ) && more[i].is_dir == (longer[i].node is Dir) by {
        if i < pending.len() {
            assert(more[i] == pending[i]);
            assert(longer[i] == plan[i]);
        } else {
            let k = i - pending.len();
            assert(more[i] == stacked(dir, listing)[k]);
            assert(longer[i] == planned(dir, entries)[k]);
            assert(lists(listing, entries));
            let j = listing.len() - 1 - k;
            assert(listing[j].name@ == entries[j].label());
        }
    }
}

proof fn lemma_drained_follows_plan(
    pending: Seq<EntryView>,
    plan: Seq<Planned>,
    templates: Seq<Seq<char>>,
)
    requires
        tracks(pending, plan),
    ensures
        ({
            let d = drained(pending, templates);
            let (rest, next) = drained_plan(plan);
            &&& tracks(d.pending, rest)
            &&& match next {
                Some(entry) => {
                    &&& d.next_dir == Some(child_path(entry.dir, entry.node.label()))
                    &&& entry.node is Dir
                    &&& templates + todo(plan) == d.templates + gathered(
                        child_path(entry.dir, entry.node.label()),
                        entry.node.children(),
                    ) + todo(rest)
                },
                None => d.next_dir is None && templates + todo(plan) == d.templates && rest.len()
                    == 0,
            }
        }),
    decreases pending.len(),
{
    if pending.len() == 0 {
        assert(templates + todo(plan) =~= templates);
    } else {
        let top = pending.last();
        let entry = plan.last();
        let fewer = pending.drop_last();
        let shorter = plan.drop_last();
        assert(pending[pending.len() - 1].path == child_path(entry.dir, entry.node.label()));
        assert forall|i: int| 0 <= i < fewer.len() implies (#[trigger] fewer[i]).path == child_path(
            shorter[i].dir,
            shorter[i].node.label(),
        ) && fewer[i].is_dir == (shorter[i].node is Dir) by {
            assert(fewer[i] == pending[i]);
            assert(shorter[i] == plan[i]);
        }
        if top.is_dir {
            assert(templates + todo(plan) =~= templates + gathered(
                child_path(entry.dir, entry.node.label()),
                entry.node.children(),
            ) + todo(shorter));
        } else {
            let kept = if has_template_marker(top.path) {
                templates.push(top.path)
            } else {
                templates
            };
            lemma_drained_follows_plan(fewer, shorter, kept);
            assert(templates + todo(plan) =~= kept + todo(shorter));
        }
    }
}

/// A walk agrees with the tree, listing by listing. Where the pending entries
/// of a walk are those of the plan and the listing that arrives is that of
/// the tree, the walk either goes on to a directory of the tree, with its
/// pending entries again those of the plan and with the same templates to
/// expect at the end of the layer, or it ends the layer, and then it holds
/// exactly the templates that were to be expected.
pub proof fn lemma_listing_follows_tree(s: WalkState, o: Outlook, listing: Seq<DirEntry>)
    requires
        s.stage == WalkStage::ListShared || s.stage == WalkStage::ListTyped,
        tracks(s.pending, o.plan),
        lists(listing, o.listing),
    ensures
        ({
            let after = after_listing(s, listing);
            let d = drained(s.pending + stacked(s.current, listing), s.templates);
            if d.next_dir is Some {
                &&& after.stage == s.stage
                &&& tracks(after.pending, next_outlook(s, o).plan)
                &&& expected(after, next_outlook(s, o)) == expected(s, o)
            } else {
                &&& after.stage != s.stage
                &&& after.pending.len() == 0
                &&& after.templates == expected(s, o)
            }
        }),
{
    let plan = o.plan + planned(s.current, o.listing);
    let pending = s.pending + stacked(s.current, listing);
    lemma_tracks_stacked(s.pending, o.plan, s.current, listing, o.listing);
    lemma_todo_of_planned(o.plan, s.current, o.listing);
    lemma_drained_follows_plan(pending, plan, s.templates);
    assert(s.templates + todo(plan) =~= expected(s, o));
}

/// At the start of a layer nothing is pending, and the templates to expect at
/// its end are those that the walk holds followed by those that the
/// recursion gives for the directory of the layer.
pub proof fn lemma_layer_outlook(s: WalkState, entries: Seq<TreeNode>)
    requires
        s.pending.len() == 0,
    ensures
        tracks(s.pending, Seq::empty()),
        expected(s, Outlook { listing: entries, plan: Seq::empty() }) == s.templates + gathered(
            s.current,
            entries,
        ),
{
    assert(s.templates + gathered(s.current, entries) + todo(Seq::<Planned>::empty())
        =~= s.templates + gathered(s.current, entries));
}

} // verus!
