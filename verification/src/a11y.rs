//! Per-frame accessibility tree building.
//!
//! Each frame, elements push and pop nodes on a stack rooted at the window
//! node; finalizing the frame collects every node once and repairs the
//! update so that the focused node and every child reference name a node
//! of the update. Node payloads are opaque to this module.

use vstd::prelude::*;
use std::collections::HashSet;
use vstd::std_specs::hash::{obeys_key_model, builds_valid_hashers};

verus! {

broadcast use vstd::std_specs::hash::group_hash_axioms;

/// The fixed node id of the root of every window's accessibility tree.
pub const ROOT_NODE_ID: u64 = 0;

/// A node under construction: its payload and the ids of its children.
#[derive(Debug)]
pub struct A11yNode<N> {
    pub data: N,
    pub children: Vec<u64>,
}

/// A finished frame: every node with its id, the root and the focus.
#[derive(Debug)]
pub struct TreeUpdate<N> {
    pub nodes: Vec<(u64, A11yNode<N>)>,
    pub root: u64,
    pub focus: u64,
}

/// Builds the accessibility tree of one frame.
pub struct A11yNodeBuilder<N> {
    ids_stack: Vec<u64>,
    nodes_stack: Vec<A11yNode<N>>,
    all_nodes: Vec<(u64, A11yNode<N>)>,
    seen_ids: HashSet<u64>,
    focus: u64,
}

/// The ids of a list of nodes, as a set.
pub open spec fn node_ids<N>(nodes: Seq<(u64, A11yNode<N>)>) -> Set<u64> {
    Set::new(|id: u64| exists|i: int| 0 <= i < nodes.len() && #[trigger] nodes[i].0 == id)
}

/// The children of a node that name a node of the update.
pub open spec fn kept_children(children: Seq<u64>, ids: Set<u64>) -> Seq<u64> {
    children.filter(|c: u64| ids.contains(c))
}

/// The entries of an open stack, popped from the top down.
pub open spec fn popped_entries<N>(ids: Seq<u64>, nodes: Seq<A11yNode<N>>) -> Seq<(u64, A11yNode<N>)>
    decreases ids.len(),
{
    if ids.len() == 0 || nodes.len() == 0 {
        Seq::empty()
    } else {
        seq![(ids.last(), nodes.last())] + popped_entries(ids.drop_last(), nodes.drop_last())
    }
}

impl<N> A11yNodeBuilder<N> {
    /// The ids of the nodes still open, bottom first.
    pub closed spec fn open_ids(&self) -> Seq<u64> {
        self.ids_stack@
    }

    /// The nodes still open, bottom first.
    pub closed spec fn open_nodes(&self) -> Seq<A11yNode<N>> {
        self.nodes_stack@
    }

    /// The nodes already closed, in the order they were closed.
    pub closed spec fn closed_nodes(&self) -> Seq<(u64, A11yNode<N>)> {
        self.all_nodes@
    }

    /// The ids pushed in this frame (the root excluded).
    pub closed spec fn seen(&self) -> Set<u64> {
        self.seen_ids@
    }

    /// The node to be reported as focused.
    pub closed spec fn focused(&self) -> u64 {
        self.focus
    }

    /// Every open id has its node.
    pub closed spec fn wf(&self) -> bool {
        self.ids_stack@.len() == self.nodes_stack@.len()
    }

    /// A builder with nothing open, nothing closed and the root focused.
    pub fn new() -> (r: Self)
        ensures
            r.wf(),
            r.open_ids() == Seq::<u64>::empty(),
            r.open_nodes() == Seq::<A11yNode<N>>::empty(),
            r.closed_nodes() == Seq::<(u64, A11yNode<N>)>::empty(),
            r.seen() == Set::<u64>::empty(),
            r.focused() == ROOT_NODE_ID,
    {
        A11yNodeBuilder {
            ids_stack: Vec::new(),
            nodes_stack: Vec::new(),
            all_nodes: Vec::new(),
            seen_ids: HashSet::new(),
            focus: ROOT_NODE_ID,
        }
    }

    /// Clears the previous frame and opens the root node with the given
    /// payload; the root is focused until another node is.
    pub fn begin_frame(&mut self, root: N)
        ensures
            final(self).wf(),
            final(self).open_ids() == seq![ROOT_NODE_ID],
            final(self).open_nodes().len() == 1,
            final(self).open_nodes()[0].data == root,
            final(self).open_nodes()[0].children@ == Seq::<u64>::empty(),
            final(self).closed_nodes() == Seq::<(u64, A11yNode<N>)>::empty(),
            final(self).seen() == Set::<u64>::empty(),
            final(self).focused() == ROOT_NODE_ID,
    {
        self.all_nodes = Vec::new();
        self.ids_stack = Vec::new();
        self.nodes_stack = Vec::new();
        self.seen_ids = HashSet::new();
        self.ids_stack.push(ROOT_NODE_ID);
        self.nodes_stack.push(A11yNode { data: root, children: Vec::new() });
        self.focus = ROOT_NODE_ID;
    }

    /// Opens a node as a child of the node on top of the stack.
    ///
    /// Returns `false`, and changes nothing, when the id was already pushed
    /// in this frame.
    pub fn push(&mut self, id: u64, node: N) -> (r: bool)
        requires
            old(self).wf(),
        ensures
            final(self).wf(),
            r == !old(self).seen().contains(id),
            final(self).focused() == old(self).focused(),
            final(self).closed_nodes() == old(self).closed_nodes(),
            r ==> {
                &&& final(self).seen() == old(self).seen().insert(id)
                &&& final(self).open_ids() == old(self).open_ids().push(id)
                &&& final(self).open_nodes().len() == old(self).open_nodes().len() + 1
                &&& final(self).open_nodes().last().data == node
                &&& final(self).open_nodes().last().children@ == Seq::<u64>::empty()
                &&& forall|i: int|
                    0 <= i < old(self).open_nodes().len() - 1 ==> #[trigger] final(self).open_nodes()[i] == old(self).open_nodes()[i]
                &&& old(self).open_nodes().len() > 0 ==> {
                    let k = old(self).open_nodes().len() - 1;
                    &&& final(self).open_nodes()[k].data == old(self).open_nodes()[k].data
                    &&& final(self).open_nodes()[k].children@ == old(self).open_nodes()[k].children@.push(id)
                }
            },
            !r ==> {
                &&& final(self).seen() == old(self).seen()
                &&& final(self).open_ids() == old(self).open_ids()
                &&& final(self).open_nodes() == old(self).open_nodes()
            },
    {
        if !self.seen_ids.insert(id) {
            return false;
        }
        let len = self.nodes_stack.len();
        if len > 0 {
            let mut parent = self.nodes_stack.pop().unwrap();
            parent.children.push(id);
            self.nodes_stack.push(parent);
        }
        self.ids_stack.push(id);
        self.nodes_stack.push(A11yNode { data: node, children: Vec::new() });
        true
    }

    /// Closes the node on top of the stack, if any.
    pub fn pop(&mut self)
        requires
            old(self).wf(),
        ensures
            final(self).wf(),
            final(self).seen() == old(self).seen(),
            final(self).focused() == old(self).focused(),
            old(self).open_ids().len() > 0 ==> {
                &&& final(self).open_ids() == old(self).open_ids().drop_last()
                &&& final(self).open_nodes() == old(self).open_nodes().drop_last()
                &&& final(self).closed_nodes() == old(self).closed_nodes().push(
                    (old(self).open_ids().last(), old(self).open_nodes().last()),
                )
            },
            old(self).open_ids().len() == 0 ==> {
                &&& final(self).open_ids() == old(self).open_ids()
                &&& final(self).open_nodes() == old(self).open_nodes()
                &&& final(self).closed_nodes() == old(self).closed_nodes()
            },
    {
        if self.ids_stack.len() > 0 {
            let id = self.ids_stack.pop().unwrap();
            let node = self.nodes_stack.pop().unwrap();
            self.all_nodes.push((id, node));
        }
    }

    /// Whether a node with the given id is part of this frame.
    pub fn has_node(&self, id: u64) -> (r: bool)
        ensures
            r == (id == ROOT_NODE_ID || self.seen().contains(id)),
    {
        id == ROOT_NODE_ID || self.seen_ids.contains(&id)
    }

    /// Sets the focused node for this frame.
    pub fn set_focus(&mut self, id: u64)
        requires
            old(self).wf(),
        ensures
            final(self).wf(),
            final(self).focused() == id,
            final(self).open_ids() == old(self).open_ids(),
            final(self).open_nodes() == old(self).open_nodes(),
            final(self).closed_nodes() == old(self).closed_nodes(),
            final(self).seen() == old(self).seen(),
    {
        self.focus = id;
    }

    /// Closes every node still open and produces the frame's update, with
    /// the focus and the child references repaired to name nodes of the
    /// update. The builder is left with nothing open or closed.
    pub fn finalize(&mut self) -> (r: TreeUpdate<N>)
        requires
            old(self).wf(),
        ensures
            final(self).wf(),
            final(self).open_ids().len() == 0,
            final(self).closed_nodes().len() == 0,
            r.root == ROOT_NODE_ID,
            repaired(
                old(self).closed_nodes() + popped_entries(
                    old(self).open_ids(),
                    old(self).open_nodes(),
                ),
                old(self).focused(),
                r,
            ),
    {
        let ghost start_closed = self.all_nodes@;
        let ghost start_ids = self.ids_stack@;
        let ghost start_nodes = self.nodes_stack@;
        while self.ids_stack.len() > 0
            invariant
                self.ids_stack@.len() == self.nodes_stack@.len(),
                self.focus == old(self).focused(),
                start_closed + popped_entries(start_ids, start_nodes) == self.all_nodes@
                    + popped_entries(self.ids_stack@, self.nodes_stack@),
            decreases self.ids_stack@.len(),
        {
            let ghost before_all = self.all_nodes@;
            let ghost before_ids = self.ids_stack@;
            let ghost before_nodes = self.nodes_stack@;
            let id = self.ids_stack.pop().unwrap();
            let node = self.nodes_stack.pop().unwrap();
            self.all_nodes.push((id, node));
            proof {
                assert(popped_entries(before_ids, before_nodes) == seq![(id, node)]
                    + popped_entries(self.ids_stack@, self.nodes_stack@));
                assert(before_all + popped_entries(before_ids, before_nodes) =~= self.all_nodes@
                    + popped_entries(self.ids_stack@, self.nodes_stack@));
            }
        }
        proof {
            assert(popped_entries(self.ids_stack@, self.nodes_stack@) =~= Seq::<
                (u64, A11yNode<N>),
            >::empty());
            assert(self.all_nodes@ =~= start_closed + popped_entries(start_ids, start_nodes));
        }
        let mut nodes: Vec<(u64, A11yNode<N>)> = Vec::new();
        std::mem::swap(&mut nodes, &mut self.all_nodes);
        assert(nodes@ == start_closed + popped_entries(start_ids, start_nodes));
        let update = TreeUpdate { nodes, root: ROOT_NODE_ID, focus: self.focus };
        repair_tree_update(update)
    }
}

/// `r` is the update of `nodes` with the focus falling back to the root when
/// it names no node, and with every child reference to a missing node
/// dropped; the order and payloads of the nodes are kept.
pub open spec fn repaired<N>(nodes: Seq<(u64, A11yNode<N>)>, focus: u64, r: TreeUpdate<N>) -> bool {
    let ids = node_ids(nodes);
    &&& r.focus == (if ids.contains(focus) { focus } else { ROOT_NODE_ID })
    &&& r.nodes@.len() == nodes.len()
    &&& forall|i: int|
        0 <= i < nodes.len() ==> {
            &&& #[trigger] r.nodes@[i].0 == nodes[i].0
            &&& r.nodes@[i].1.data == nodes[i].1.data
            &&& r.nodes@[i].1.children@ == kept_children(nodes[i].1.children@, ids)
        }
}

/// The children of `children` that are in `ids`, in order.
fn filter_children(children: &Vec<u64>, ids: &HashSet<u64>) -> (r: Vec<u64>)
    requires
        obeys_key_model::<u64>(),
        builds_valid_hashers::<std::hash::RandomState>(),
    ensures
        r@ == kept_children(children@, ids@),
{
    let mut out: Vec<u64> = Vec::new();
    let mut i: usize = 0;
    proof {
        reveal(Seq::filter);
    }
    while i < children.len()
        invariant
            obeys_key_model::<u64>(),
            builds_valid_hashers::<std::hash::RandomState>(),
            i <= children.len(),
            out@ == kept_children(children@.subrange(0, i as int), ids@),
        decreases children.len() - i,
    {
        let c = children[i];
        proof {
            reveal(Seq::filter);
            assert(children@.subrange(0, i + 1).drop_last() =~= children@.subrange(0, i as int));
        }
        if ids.contains(&c) {
            out.push(c);
        }
        i = i + 1;
    }
    proof {
        assert(children@.subrange(0, children.len() as int) =~= children@);
    }
    out
}

/// Repairs an update: the focus falls back to the root when it names no
/// node, and child references to missing nodes are dropped.
pub fn repair_tree_update<N>(update: TreeUpdate<N>) -> (r: TreeUpdate<N>)
    ensures
        r.root == update.root,
        repaired(update.nodes@, update.focus, r),
{
    assert(obeys_key_model::<u64>());
    assert(builds_valid_hashers::<std::hash::RandomState>());
    let TreeUpdate { nodes, root, focus } = update;
    let ghost orig = nodes@;
    let mut ids: HashSet<u64> = HashSet::new();
    let mut i: usize = 0;
    while i < nodes.len()
        invariant
            obeys_key_model::<u64>(),
            builds_valid_hashers::<std::hash::RandomState>(),
            i <= nodes.len(),
            ids@ == node_ids(nodes@.subrange(0, i as int)),
        decreases nodes.len() - i,
    {
        let id = nodes[i].0;
        ids.insert(id);
        proof {
            let pre = nodes@.subrange(0, i as int);
            let post = nodes@.subrange(0, i + 1);
            assert(post.len() == i + 1);
            assert(post[i as int].0 == id);
            assert forall|x: u64| #[trigger] ids@.contains(x) == node_ids(post).contains(x) by {
                if x == id {
                    assert(post[i as int].0 == x);
                } else {
                    if node_ids(pre).contains(x) {
                        let j = choose|j: int| 0 <= j < pre.len() && #[trigger] pre[j].0 == x;
                        assert(post[j] == pre[j]);
                    }
                    if node_ids(post).contains(x) {
                        let j = choose|j: int| 0 <= j < post.len() && #[trigger] post[j].0 == x;
                        assert(j != i);
                        assert(pre[j] == post[j]);
                    }
                }
            }
            assert(ids@ =~= node_ids(post));
        }
        i = i + 1;
    }
    proof {
        assert(nodes@.subrange(0, nodes.len() as int) =~= nodes@);
    }
    let new_focus = if ids.contains(&focus) { focus } else { ROOT_NODE_ID };
    let mut out: Vec<(u64, A11yNode<N>)> = Vec::new();
    let mut source = nodes;
    let mut rest: Vec<(u64, A11yNode<N>)> = Vec::new();
    while source.len() > 0
        invariant
            orig.len() == source@.len() + rest@.len(),
            source@ == orig.subrange(0, source@.len() as int),
            forall|k: int| 0 <= k < rest@.len() ==> #[trigger] rest@[k] == orig[orig.len() - 1 - k],
        decreases source@.len(),
    {
        let e = source.pop().unwrap();
        rest.push(e);
    }
    let ghost rev = rest@;
    proof {
        assert(rev =~= orig.reverse());
    }
    while rest.len() > 0
        invariant
            obeys_key_model::<u64>(),
            builds_valid_hashers::<std::hash::RandomState>(),
            ids@ == node_ids(orig),
            rev == orig.reverse(),
            out@.len() + rest@.len() == orig.len(),
            rest@ == rev.subrange(0, rest@.len() as int),
            forall|k: int|
                0 <= k < out@.len() ==> {
                    &&& #[trigger] out@[k].0 == orig[k].0
                    &&& out@[k].1.data == orig[k].1.data
                    &&& out@[k].1.children@ == kept_children(orig[k].1.children@, ids@)
                },
        decreases rest@.len(),
    {
        let ghost k = out@.len() as int;
        let (id, node) = rest.pop().unwrap();
        proof {
            assert(rev[(orig.len() - 1 - k) as int] == orig[k]);
        }
        let kept = filter_children(&node.children, &ids);
        let A11yNode { data, children: _ } = node;
        out.push((id, A11yNode { data, children: kept }));
    }
    TreeUpdate { nodes: out, root, focus: new_focus }
}

/// The accessibility state of a window: whether it is forcibly disabled
/// and whether the system asked for accessibility in the current frame.
pub struct A11yActivation {
    force_disabled: bool,
    active_this_frame: bool,
}

impl A11yActivation {
    pub closed spec fn is_force_disabled(&self) -> bool {
        self.force_disabled
    }

    pub closed spec fn active(&self) -> bool {
        self.active_this_frame
    }

    /// A window's activation state; inactive until the first sync.
    pub fn new(force_disabled: bool) -> (r: Self)
        ensures
            r.is_force_disabled() == force_disabled,
            !r.active(),
    {
        A11yActivation { force_disabled, active_this_frame: false }
    }

    /// Takes a snapshot of the system's request for accessibility; the
    /// snapshot holds until the next sync.
    pub fn sync_active_flag(&mut self, system_requested: bool)
        ensures
            final(self).is_force_disabled() == old(self).is_force_disabled(),
            final(self).active() == (!old(self).is_force_disabled() && system_requested),
    {
        self.active_this_frame = !self.force_disabled && system_requested;
    }

    /// Whether accessibility is active for the current frame.
    pub fn is_active(&self) -> (r: bool)
        ensures
            r == self.active(),
    {
        self.active_this_frame
    }
}

/// A finalized update names a node for its focus, or falls back to the
/// root, and every child reference it keeps names one of its nodes.
pub proof fn lemma_repaired_update_is_closed<N>(
    nodes: Seq<(u64, A11yNode<N>)>,
    focus: u64,
    r: TreeUpdate<N>,
)
    requires
        repaired(nodes, focus, r),
    ensures
        node_ids(r.nodes@) == node_ids(nodes),
        node_ids(r.nodes@).contains(r.focus) || r.focus == ROOT_NODE_ID,
        forall|i: int, j: int|
            0 <= i < r.nodes@.len() && 0 <= j < r.nodes@[i].1.children@.len()
                ==> node_ids(r.nodes@).contains(#[trigger] r.nodes@[i].1.children@[j]),
{
    let ids = node_ids(nodes);
    assert forall|x: u64| node_ids(r.nodes@).contains(x) == ids.contains(x) by {
        if node_ids(r.nodes@).contains(x) {
            let k = choose|k: int| 0 <= k < r.nodes@.len() && #[trigger] r.nodes@[k].0 == x;
            assert(nodes[k].0 == x);
        }
        if ids.contains(x) {
            let k = choose|k: int| 0 <= k < nodes.len() && #[trigger] nodes[k].0 == x;
            assert(r.nodes@[k].0 == x);
        }
    }
    assert(node_ids(r.nodes@) =~= ids);
    assert forall|i: int, j: int|
        0 <= i < r.nodes@.len() && 0 <= j < r.nodes@[i].1.children@.len() implies node_ids(
        r.nodes@,
    ).contains(#[trigger] r.nodes@[i].1.children@[j]) by {
        let kept = kept_children(nodes[i].1.children@, ids);
        assert(r.nodes@[i].0 == nodes[i].0);
        assert(r.nodes@[i].1.children@ == kept);
        nodes[i].1.children@.lemma_filter_pred(|c: u64| ids.contains(c), j);
    }
}

/// The ids of a list of entries, in order.
pub open spec fn entry_ids<N>(entries: Seq<(u64, A11yNode<N>)>) -> Seq<u64> {
    entries.map_values(|e: (u64, A11yNode<N>)| e.0)
}

/// Whether no id occurs twice.
pub open spec fn ids_distinct(ids: Seq<u64>) -> bool {
    forall|i: int, j: int| 0 <= i < j < ids.len() ==> ids[i] != ids[j]
}

impl<N> A11yNodeBuilder<N> {
    /// The ids of every node of the frame: the closed ones, then the open ones.
    pub open spec fn frame_ids(&self) -> Seq<u64> {
        entry_ids(self.closed_nodes()) + self.open_ids()
    }

    /// The frame's node ids are distinct, and each but the root's was pushed.
    pub open spec fn well_numbered(&self) -> bool {
        &&& ids_distinct(self.frame_ids())
        &&& forall|i: int|
            0 <= i < self.frame_ids().len() && self.frame_ids()[i] != ROOT_NODE_ID
                ==> self.seen().contains(#[trigger] self.frame_ids()[i])
    }
}

/// A frame that has just begun, with only the root open, is well numbered.
pub proof fn lemma_begun_frame_is_well_numbered<N>(b: A11yNodeBuilder<N>)
    requires
        b.closed_nodes() == Seq::<(u64, A11yNode<N>)>::empty(),
        b.open_ids() == seq![ROOT_NODE_ID],
    ensures
        b.well_numbered(),
{
    assert(b.frame_ids() =~= seq![ROOT_NODE_ID]);
}

/// Pushing a node whose id is new and is not the root's keeps a frame's
/// node ids distinct.
pub proof fn lemma_push_keeps_ids_distinct<N>(before: A11yNodeBuilder<N>, after: A11yNodeBuilder<N>, id: u64)
    requires
        before.well_numbered(),
        id != ROOT_NODE_ID,
        !before.seen().contains(id),
        after.seen() == before.seen().insert(id),
        after.open_ids() == before.open_ids().push(id),
        after.closed_nodes() == before.closed_nodes(),
    ensures
        after.well_numbered(),
{
    let f = before.frame_ids();
    assert(after.frame_ids() =~= f.push(id));
    assert forall|i: int| 0 <= i < f.len() implies #[trigger] f[i] != id by {
        if f[i] != ROOT_NODE_ID {
            assert(before.seen().contains(f[i]));
        }
    }
    assert forall|i: int, j: int| 0 <= i < j < after.frame_ids().len() implies after.frame_ids()[i]
        != after.frame_ids()[j] by {
        if j == f.len() {
            assert(after.frame_ids()[i] == f[i]);
        }
    }
}

/// Closing the top node keeps a frame's node ids distinct: it only moves
/// from the open nodes to the closed ones.
pub proof fn lemma_pop_keeps_ids_distinct<N>(before: A11yNodeBuilder<N>, after: A11yNodeBuilder<N>)
    requires
        before.well_numbered(),
        before.wf(),
        before.open_ids().len() > 0,
        after.seen() == before.seen(),
        after.open_ids() == before.open_ids().drop_last(),
        after.closed_nodes() == before.closed_nodes().push(
            (before.open_ids().last(), before.open_nodes().last()),
        ),
    ensures
        after.well_numbered(),
{
    let c = entry_ids(before.closed_nodes());
    let o = before.open_ids();
    let f = before.frame_ids();
    let g = after.frame_ids();
    let n = c.len();
    let m = o.len();
    assert(entry_ids(after.closed_nodes()) =~= c.push(o.last()));
    assert(g =~= c.push(o.last()) + o.drop_last());
    // position of each element of `g` in `f`
    let pos = |k: int| if k < n { k } else if k == n { n + m - 1 } else { k - 1 };
    assert forall|k: int| 0 <= k < g.len() implies #[trigger] g[k] == f[pos(k)] by {
        if k < n {
        } else if k == n {
        } else {
            assert(g[k] == o[k - n - 1]);
            assert(f[k - 1] == o[k - 1 - n]);
        }
    }
    assert forall|i: int, j: int| 0 <= i < j < g.len() implies g[i] != g[j] by {
        assert(g[i] == f[pos(i)]);
        assert(g[j] == f[pos(j)]);
        if pos(i) < pos(j) {
        } else {
            assert(pos(j) < pos(i));
        }
    }
    assert forall|i: int| 0 <= i < g.len() && g[i] != ROOT_NODE_ID implies after.seen().contains(
        #[trigger] g[i],
    ) by {
        assert(g[i] == f[pos(i)]);
    }
}

/// The ids of popped entries are the open ids, top first.
proof fn lemma_popped_ids<N>(ids: Seq<u64>, nodes: Seq<A11yNode<N>>)
    requires
        ids.len() == nodes.len(),
    ensures
        entry_ids(popped_entries(ids, nodes)) =~= ids.reverse(),
    decreases ids.len(),
{
    if ids.len() > 0 {
        lemma_popped_ids(ids.drop_last(), nodes.drop_last());
        assert(ids.reverse() =~= seq![ids.last()] + ids.drop_last().reverse());
    }
}

/// The update of a well-numbered frame names every node once: no two of
/// its nodes share an id.
pub proof fn lemma_finalized_ids_distinct<N>(before: A11yNodeBuilder<N>, r: TreeUpdate<N>)
    requires
        before.well_numbered(),
        before.wf(),
        repaired(
            before.closed_nodes() + popped_entries(before.open_ids(), before.open_nodes()),
            before.focused(),
            r,
        ),
    ensures
        ids_distinct(entry_ids(r.nodes@)),
{
    let entries = before.closed_nodes() + popped_entries(before.open_ids(), before.open_nodes());
    let c = entry_ids(before.closed_nodes());
    let o = before.open_ids();
    let f = before.frame_ids();
    let n = c.len();
    let m = o.len();
    lemma_popped_ids(o, before.open_nodes());
    assert(entry_ids(entries) =~= c + o.reverse());
    let h = entry_ids(r.nodes@);
    assert forall|k: int| 0 <= k < h.len() implies #[trigger] h[k] == (c + o.reverse())[k] by {
        assert(r.nodes@[k].0 == entries[k].0);
    }
    let pos = |k: int| if k < n { k } else { n + (m - 1 - (k - n)) };
    assert forall|k: int| 0 <= k < h.len() implies #[trigger] h[k] == f[pos(k)] by {
        assert(h[k] == (c + o.reverse())[k]);
        if k >= n {
            assert(o.reverse()[k - n] == o[m - 1 - (k - n)]);
        }
    }
    assert forall|i: int, j: int| 0 <= i < j < h.len() implies h[i] != h[j] by {
        assert(h[i] == f[pos(i)]);
        assert(h[j] == f[pos(j)]);
        if pos(i) < pos(j) {
        } else {
            assert(pos(j) < pos(i));
        }
    }
}

/// The root of every accessibility tree has node id 0.
pub proof fn law_a11y_constants()
    ensures
        ROOT_NODE_ID == 0,
{
}

} // verus!
