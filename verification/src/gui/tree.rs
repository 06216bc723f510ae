//! The component tree of the gui, stored in pre-order.
//!
//! Every component is a node; a node is followed by its descendants, and
//! records how many direct children and how many descendants it has. The
//! nodes of the gui form a forest of top-level components (the roots).
use vstd::prelude::*;

verus! {

/// One component of the gui tree.
#[derive(Debug, Clone, Copy)]
pub struct GuiNode {
    /// Index of the top-level component that holds this node.
    pub root_index: u32,
    /// Number of direct children.
    pub children_count: u32,
    /// Number of descendants.
    pub descendants_count: u32,
    /// Whether the layout of the component must be computed again.
    /// Only the flag of a top-level component is read.
    pub dirty: bool,
}

/// A component that was opened and whose children are being added.
#[derive(Debug, Clone, Copy)]
pub struct BuildFrame {
    /// Index of the open component.
    pub index: usize,
    /// Children added so far.
    pub children_count: u32,
    /// Descendants added so far.
    pub descendants_count: u32,
}

/// The number of trees in `nodes[lo..hi]`, if that range is a forest in pre-order.
pub open spec fn forest(nodes: Seq<GuiNode>, lo: int, hi: int) -> Option<nat>
    decreases hi - lo,
{
    if lo == hi {
        Some(0)
    } else if lo > hi || lo < 0 || hi > nodes.len() {
        None
    } else {
        let end = lo + 1 + nodes[lo].descendants_count;
        if end > hi {
            None
        } else {
            match (forest(nodes, lo + 1, end), forest(nodes, end, hi)) {
                (Some(c), Some(n)) => if c == nodes[lo].children_count {
                    Some(n + 1)
                } else {
                    None
                },
                _ => None,
            }
        }
    }
}

/// The end of the subtree that starts at `i`.
pub open spec fn subtree_end(nodes: Seq<GuiNode>, i: int) -> int {
    i + 1 + nodes[i].descendants_count
}

/// In the forest `nodes[lo..hi]`, the index of the tree that holds node `k`.
pub open spec fn top_of(nodes: Seq<GuiNode>, lo: int, hi: int, k: int) -> int
    decreases hi - lo,
{
    if lo >= hi || lo < 0 {
        lo
    } else {
        let end = lo + 1 + nodes[lo].descendants_count;
        if k < end || end > hi {
            lo
        } else {
            top_of(nodes, end, hi, k)
        }
    }
}

/// In the forest `nodes[lo..hi]`, the starts of its trees, in order.
pub open spec fn tree_starts(nodes: Seq<GuiNode>, lo: int, hi: int) -> Seq<int>
    decreases hi - lo,
{
    if lo >= hi || lo < 0 {
        Seq::empty()
    } else {
        let end = lo + 1 + nodes[lo].descendants_count;
        if end > hi {
            seq![lo]
        } else {
            seq![lo] + tree_starts(nodes, end, hi)
        }
    }
}

/// Two node sequences agree on the shape of `[lo, hi)`.
pub open spec fn same_shape(a: Seq<GuiNode>, b: Seq<GuiNode>, lo: int, hi: int) -> bool {
    &&& 0 <= lo <= hi
    &&& hi <= a.len()
    &&& hi <= b.len()
    &&& forall|k: int|
        #![trigger a[k]]
        lo <= k < hi ==> a[k].children_count == b[k].children_count && a[k].descendants_count
            == b[k].descendants_count
}

pub proof fn lemma_forest_frame(a: Seq<GuiNode>, b: Seq<GuiNode>, lo: int, hi: int)
    requires
        same_shape(a, b, lo, hi),
    ensures
        forest(a, lo, hi) == forest(b, lo, hi),
        forall|k: int| #![trigger top_of(a, lo, hi, k)] top_of(a, lo, hi, k) == top_of(b, lo, hi, k),
        tree_starts(a, lo, hi) == tree_starts(b, lo, hi),
    decreases hi - lo,
{
    if lo < hi {
        let end = lo + 1 + a[lo].descendants_count;
        assert(a[lo].descendants_count == b[lo].descendants_count);
        if end <= hi {
            lemma_forest_frame(a, b, lo + 1, end);
            lemma_forest_frame(a, b, end, hi);
            assert forall|k: int| #![trigger top_of(a, lo, hi, k)] top_of(a, lo, hi, k) == top_of(b, lo, hi, k) by {
                assert(top_of(a, end, hi, k) == top_of(b, end, hi, k));
            }
        }
    }
}

pub proof fn lemma_forest_bound(nodes: Seq<GuiNode>, lo: int, hi: int)
    requires
        forest(nodes, lo, hi) is Some,
    ensures
        forest(nodes, lo, hi)->0 <= hi - lo,
        lo <= hi,
    decreases hi - lo,
{
    if lo < hi {
        let end = lo + 1 + nodes[lo].descendants_count;
        lemma_forest_bound(nodes, end, hi);
    }
}

pub proof fn lemma_forest_concat(nodes: Seq<GuiNode>, lo: int, mid: int, hi: int)
    requires
        forest(nodes, lo, mid) is Some,
        forest(nodes, mid, hi) is Some,
    ensures
        forest(nodes, lo, hi) == Some((forest(nodes, lo, mid)->0 + forest(nodes, mid, hi)->0) as nat),
        forall|k: int| lo <= k < mid ==> #[trigger] top_of(nodes, lo, hi, k) == top_of(nodes, lo, mid, k),
        forall|k: int| mid <= k < hi ==> #[trigger] top_of(nodes, lo, hi, k) == top_of(nodes, mid, hi, k),
        tree_starts(nodes, lo, hi) == tree_starts(nodes, lo, mid) + tree_starts(nodes, mid, hi),
    decreases mid - lo,
{
    lemma_forest_bound(nodes, lo, mid);
    lemma_forest_bound(nodes, mid, hi);
    if lo == mid {
        assert(tree_starts(nodes, lo, mid) =~= Seq::<int>::empty());
        assert(tree_starts(nodes, lo, hi) =~= tree_starts(nodes, lo, mid) + tree_starts(nodes, mid, hi));
    } else if mid == hi {
        assert(tree_starts(nodes, mid, hi) =~= Seq::<int>::empty());
        assert(tree_starts(nodes, lo, hi) =~= tree_starts(nodes, lo, mid) + tree_starts(nodes, mid, hi));
    } else {
        let end = lo + 1 + nodes[lo].descendants_count;
        lemma_forest_concat(nodes, end, mid, hi);
        assert forall|k: int| lo <= k < mid implies #[trigger] top_of(nodes, lo, hi, k) == top_of(
            nodes,
            lo,
            mid,
            k,
        ) by {
            if k >= end {
                assert(top_of(nodes, end, hi, k) == top_of(nodes, end, mid, k));
            }
        }
        assert forall|k: int| mid <= k < hi implies #[trigger] top_of(nodes, lo, hi, k) == top_of(
            nodes,
            mid,
            hi,
            k,
        ) by {
            assert(top_of(nodes, end, hi, k) == top_of(nodes, mid, hi, k));
        }
        assert(tree_starts(nodes, lo, hi) =~= tree_starts(nodes, lo, mid) + tree_starts(nodes, mid, hi));
    }
}

/// Facts on the tree that holds a node of a forest.
pub proof fn lemma_top_of(nodes: Seq<GuiNode>, lo: int, hi: int, k: int)
    requires
        forest(nodes, lo, hi) is Some,
        lo <= k < hi,
    ensures
        lo <= top_of(nodes, lo, hi, k) <= k,
        k < subtree_end(nodes, top_of(nodes, lo, hi, k)) <= hi,
        tree_starts(nodes, lo, hi).contains(top_of(nodes, lo, hi, k)),
        tree_starts(nodes, lo, hi).contains(k) <==> top_of(nodes, lo, hi, k) == k,
    decreases hi - lo,
{
    let end = lo + 1 + nodes[lo].descendants_count;
    assert(tree_starts(nodes, lo, hi)[0] == lo);
    if k >= end {
        lemma_top_of(nodes, end, hi, k);
        let rest = tree_starts(nodes, end, hi);
        assert(tree_starts(nodes, lo, hi) == seq![lo] + rest);
        let t = top_of(nodes, end, hi, k);
        let w = choose|w: int| 0 <= w < rest.len() && rest[w] == t;
        assert(tree_starts(nodes, lo, hi)[w + 1] == t);
        if tree_starts(nodes, lo, hi).contains(k) {
            let w2 = choose|w2: int| 0 <= w2 < tree_starts(nodes, lo, hi).len() && tree_starts(nodes, lo, hi)[w2] == k;
            assert(w2 > 0);
            assert(rest[w2 - 1] == k);
        }
        if t == k {
            assert(rest.contains(k));
            let w3 = choose|w3: int| 0 <= w3 < rest.len() && rest[w3] == k;
            assert(tree_starts(nodes, lo, hi)[w3 + 1] == k);
        }
    } else {
        if k > lo {
            lemma_tree_starts_bounds(nodes, end, hi);
            assert(tree_starts(nodes, lo, hi) == seq![lo] + tree_starts(nodes, end, hi));
            if tree_starts(nodes, lo, hi).contains(k) {
                let w2 = choose|w2: int| 0 <= w2 < tree_starts(nodes, lo, hi).len() && tree_starts(nodes, lo, hi)[w2] == k;
                assert(w2 > 0);
                assert(tree_starts(nodes, end, hi)[w2 - 1] == k);
            }
        }
    }
}

/// The starts of the trees of a forest lie in its range, one per tree.
pub proof fn lemma_tree_starts_bounds(nodes: Seq<GuiNode>, lo: int, hi: int)
    requires
        forest(nodes, lo, hi) is Some,
    ensures
        tree_starts(nodes, lo, hi).len() == forest(nodes, lo, hi)->0,
        forall|w: int|
            0 <= w < tree_starts(nodes, lo, hi).len() ==> lo <= #[trigger] tree_starts(nodes, lo, hi)[w] < hi,
        forall|w: int|
            0 <= w < tree_starts(nodes, lo, hi).len() ==> subtree_end(nodes, #[trigger] tree_starts(nodes, lo, hi)[w]) <= hi,
    decreases hi - lo,
{
    if lo < hi {
        let end = lo + 1 + nodes[lo].descendants_count;
        lemma_tree_starts_bounds(nodes, end, hi);
        assert(tree_starts(nodes, lo, hi) == seq![lo] + tree_starts(nodes, end, hi));
    }
}

/// A node of a forest is followed by a forest of its children.
pub proof fn lemma_subtree(nodes: Seq<GuiNode>, lo: int, hi: int, k: int)
    requires
        forest(nodes, lo, hi) is Some,
        lo <= k < hi,
    ensures
        subtree_end(nodes, k) <= hi,
        forest(nodes, k + 1, subtree_end(nodes, k)) == Some(nodes[k].children_count as nat),
    decreases hi - lo,
{
    let end = lo + 1 + nodes[lo].descendants_count;
    if k >= end {
        lemma_subtree(nodes, end, hi, k);
    } else if k > lo {
        lemma_subtree(nodes, lo + 1, end, k);
    }
}

/// A node with its complete subtree after it is a forest of one tree.
pub proof fn lemma_single_tree(nodes: Seq<GuiNode>, i: int)
    requires
        0 <= i < nodes.len(),
        subtree_end(nodes, i) <= nodes.len(),
        forest(nodes, i + 1, subtree_end(nodes, i)) == Some(nodes[i].children_count as nat),
    ensures
        forest(nodes, i, subtree_end(nodes, i)) == Some(1nat),
        forall|k: int| i <= k < subtree_end(nodes, i) ==> #[trigger] top_of(nodes, i, subtree_end(nodes, i), k) == i,
        tree_starts(nodes, i, subtree_end(nodes, i)) == seq![i],
{
    let end = subtree_end(nodes, i);
    assert(forest(nodes, end, end) == Some(0nat));
    assert(tree_starts(nodes, end, end) =~= Seq::<int>::empty());
    assert(tree_starts(nodes, i, end) =~= seq![i]);
}

} // verus!

verus! {

/// Where the components opened after frame `j` end.
pub open spec fn frame_end(stack: Seq<BuildFrame>, j: int, len: int) -> int {
    if j + 1 < stack.len() {
        stack[j + 1].index as int
    } else {
        len
    }
}

/// The end of the complete top-level components: the first open one, or the end.
pub open spec fn top_boundary(stack: Seq<BuildFrame>, len: int) -> int {
    if stack.len() == 0 {
        len
    } else {
        stack[0].index as int
    }
}

/// The component tree, with the components that are still open.
pub struct GuiTree {
    nodes: Vec<GuiNode>,
    stack: Vec<BuildFrame>,
    /// The top-level component being built, or `u32::MAX` between components.
    root_index: u32,
}

/// The node that a new component gets.
pub open spec fn fresh_node(root: u32, len: int) -> GuiNode {
    GuiNode {
        root_index: if root == u32::MAX { len as u32 } else { root },
        children_count: 0,
        descendants_count: 0,
        dirty: true,
    }
}

impl GuiTree {
    /// The components, in the order they were added.
    pub closed spec fn node_list(&self) -> Seq<GuiNode> {
        self.nodes@
    }

    /// The components that are still open, outermost first.
    pub closed spec fn open_frames(&self) -> Seq<BuildFrame> {
        self.stack@
    }

    /// The top-level component being built, or `u32::MAX` between components.
    pub closed spec fn current_root(&self) -> u32 {
        self.root_index
    }

    /// The tree is well formed: the complete components form a forest, each
    /// open component records the children added after it, and every node
    /// names the top-level component that holds it.
    pub open spec fn wf(&self) -> bool {
        let nodes = self.node_list();
        let stack = self.open_frames();
        let len = nodes.len() as int;
        let b = top_boundary(stack, len);
        &&& len < u32::MAX
        &&& (stack.len() == 0 <==> self.current_root() == u32::MAX)
        &&& stack.len() > 0 ==> self.current_root() == stack[0].index
        &&& forest(nodes, 0, b) is Some
        &&& forall|j: int| 0 <= j < stack.len() ==> #[trigger] stack[j].index < len
        &&& forall|j: int, l: int| 0 <= j < l < stack.len() ==> #[trigger] stack[j].index < #[trigger] stack[l].index
        &&& forall|j: int|
            0 <= j < stack.len() ==> forest(nodes, stack[j].index + 1, frame_end(stack, j, len))
                == Some(#[trigger] stack[j].children_count as nat) && stack[j].descendants_count
                == frame_end(stack, j, len) - stack[j].index - 1
        &&& forall|k: int| 0 <= k < b ==> #[trigger] nodes[k].root_index == top_of(nodes, 0, b, k)
        &&& forall|k: int| b <= k < len ==> #[trigger] nodes[k].root_index == b
    }

    /// Every component is complete.
    pub open spec fn complete(&self) -> bool {
        self.open_frames().len() == 0
    }

    /// Whether every component is complete.
    pub fn is_complete(&self) -> (b: bool)
        ensures
            b == self.complete(),
    {
        self.stack.len() == 0
    }

    /// The number of components.
    pub fn len(&self) -> (n: usize)
        ensures
            n == self.node_list().len(),
    {
        self.nodes.len()
    }

    /// The component at `i`.
    pub fn node(&self, i: usize) -> (n: GuiNode)
        requires
            i < self.node_list().len(),
        ensures
            n == self.node_list()[i as int],
    {
        self.nodes[i]
    }

    /// An empty tree.
    pub fn new() -> (t: Self)
        ensures
            t.wf(),
            t.complete(),
            t.node_list().len() == 0,
    {
        GuiTree { nodes: Vec::new(), stack: Vec::new(), root_index: u32::MAX }
    }

    /// Removes every component.
    pub fn clear(&mut self)
        ensures
            final(self).wf(),
            final(self).complete(),
            final(self).node_list().len() == 0,
    {
        self.nodes.clear();
        self.stack.clear();
        self.root_index = u32::MAX;
    }

    fn new_gui_node(&mut self) -> (n: GuiNode)
        requires
            old(self).node_list().len() < u32::MAX,
        ensures
            n == fresh_node(old(self).current_root(), old(self).node_list().len() as int),
            final(self).node_list() == old(self).node_list(),
            final(self).open_frames() == old(self).open_frames(),
            final(self).current_root() == n.root_index,
    {
        if self.root_index == u32::MAX {
            self.root_index = self.nodes.len() as u32;
        }
        GuiNode { root_index: self.root_index, children_count: 0, descendants_count: 0, dirty: true }
    }

    /// Opens a component that will hold the components added until it is closed.
    pub fn open_node(&mut self) -> (index: usize)
        requires
            old(self).wf(),
            old(self).node_list().len() + 1 < u32::MAX,
        ensures
            final(self).wf(),
            index == old(self).node_list().len(),
            final(self).node_list() == old(self).node_list().push(
                fresh_node(old(self).current_root(), old(self).node_list().len() as int),
            ),
            final(self).open_frames() == old(self).open_frames().push(
                BuildFrame { index, children_count: 0, descendants_count: 0 },
            ),
    {
        let ghost old_nodes = self.node_list();
        let ghost old_stack = self.open_frames();
        let ghost len = old_nodes.len() as int;
        let index = self.nodes.len();
        let node = self.new_gui_node();
        self.nodes.push(node);
        self.stack.push(BuildFrame { index, children_count: 0, descendants_count: 0 });
        proof {
            let nodes = self.node_list();
            let stack = self.open_frames();
            let b = top_boundary(old_stack, len);
            assert(top_boundary(stack, len + 1) == b);
            lemma_forest_frame(old_nodes, nodes, 0, b);
            assert forall|j: int| 0 <= j < stack.len() implies forest(
                nodes,
                stack[j].index + 1,
                frame_end(stack, j, len + 1),
            ) == Some(#[trigger] stack[j].children_count as nat) && stack[j].descendants_count
                == frame_end(stack, j, len + 1) - stack[j].index - 1 by {
                if j + 1 < stack.len() {
                    assert(stack[j] == old_stack[j]);
                    assert(frame_end(stack, j, len + 1) == frame_end(old_stack, j, len));
                    assert(forest(old_nodes, old_stack[j].index + 1, frame_end(old_stack, j, len))
                        == Some(old_stack[j].children_count as nat));
                    lemma_forest_frame(old_nodes, nodes, stack[j].index + 1, frame_end(old_stack, j, len));
                }
            }
            assert forall|k: int| 0 <= k < b implies #[trigger] nodes[k].root_index == top_of(
                nodes,
                0,
                b,
                k,
            ) by {
                assert(nodes[k] == old_nodes[k]);
                assert(top_of(nodes, 0, b, k) == top_of(old_nodes, 0, b, k));
            }
            assert forall|k: int| b <= k < len + 1 implies #[trigger] nodes[k].root_index == b by {
                if k < len {
                    assert(nodes[k] == old_nodes[k]);
                }
            }
        }
        index
    }

    /// Adds a component without children.
    pub fn add_leaf(&mut self) -> (index: usize)
        requires
            old(self).wf(),
            old(self).node_list().len() + 1 < u32::MAX,
        ensures
            final(self).wf(),
            index == old(self).node_list().len(),
            final(self).node_list() == old(self).node_list().push(
                fresh_node(old(self).current_root(), old(self).node_list().len() as int),
            ),
            final(self).open_frames().len() == old(self).open_frames().len(),
            forall|j: int|
                0 <= j < old(self).open_frames().len() ==> #[trigger] final(self).open_frames()[j].index
                    == old(self).open_frames()[j].index,
    {
        let ghost old_nodes = self.node_list();
        let ghost old_stack = self.open_frames();
        let ghost len = old_nodes.len() as int;
        let index = self.nodes.len();
        let node = self.new_gui_node();
        self.nodes.push(node);
        proof {
            let nodes = self.node_list();
            assert(forest(nodes, len + 1, len + 1) == Some(0nat));
            lemma_single_tree(nodes, len);
            if old_stack.len() > 0 {
                let t = old_stack.len() - 1;
                let f = old_stack[t];
                assert(frame_end(old_stack, t, len) == len);
                assert(forest(old_nodes, f.index + 1, len) == Some(f.children_count as nat));
                lemma_forest_frame(old_nodes, nodes, f.index + 1, len);
                lemma_forest_concat(nodes, f.index + 1, len, len + 1);
                lemma_forest_bound(nodes, f.index + 1, len + 1);
            }
        }
        self.update_parent_children_count(0);
        self.update_root_node();
        proof {
            let nodes = self.node_list();
            let stack = self.open_frames();
            let b = top_boundary(old_stack, len);
            if old_stack.len() == 0 {
                lemma_forest_frame(old_nodes, nodes, 0, len);
                lemma_forest_concat(nodes, 0, len, len + 1);
                assert forall|k: int| 0 <= k < len + 1 implies #[trigger] nodes[k].root_index
                    == top_of(nodes, 0, len + 1, k) by {
                    if k < len {
                        assert(nodes[k] == old_nodes[k]);
                        assert(top_of(nodes, 0, len, k) == top_of(old_nodes, 0, len, k));
                    }
                }
            } else {
                assert(top_boundary(stack, len + 1) == b);
                lemma_forest_frame(old_nodes, nodes, 0, b);
                assert forall|j: int| 0 <= j < stack.len() implies forest(
                    nodes,
                    stack[j].index + 1,
                    frame_end(stack, j, len + 1),
                ) == Some(#[trigger] stack[j].children_count as nat) && stack[j].descendants_count
                    == frame_end(stack, j, len + 1) - stack[j].index - 1 by {
                    if j + 1 < stack.len() {
                        assert(stack[j] == old_stack[j]);
                        assert(stack[j + 1].index == old_stack[j + 1].index);
                        assert(forest(old_nodes, old_stack[j].index + 1, frame_end(old_stack, j, len))
                            == Some(old_stack[j].children_count as nat));
                        lemma_forest_frame(old_nodes, nodes, stack[j].index + 1, frame_end(old_stack, j, len));
                    }
                }
                assert forall|k: int| 0 <= k < b implies #[trigger] nodes[k].root_index == top_of(
                    nodes,
                    0,
                    b,
                    k,
                ) by {
                    assert(nodes[k] == old_nodes[k]);
                    assert(top_of(nodes, 0, b, k) == top_of(old_nodes, 0, b, k));
                }
                assert forall|k: int| b <= k < len + 1 implies #[trigger] nodes[k].root_index == b by {
                    if k < len {
                        assert(nodes[k] == old_nodes[k]);
                    }
                }
            }
        }
        index
    }

    /// Closes the innermost open component: it records the children and
    /// descendants added since it was opened, and counts as a child of the
    /// component around it.
    pub fn close_node(&mut self) -> (index: usize)
        requires
            old(self).wf(),
            old(self).open_frames().len() > 0,
        ensures
            final(self).wf(),
            index == old(self).open_frames().last().index,
            final(self).node_list() == old(self).node_list().update(
                index as int,
                GuiNode {
                    children_count: old(self).open_frames().last().children_count,
                    descendants_count: old(self).open_frames().last().descendants_count,
                    ..old(self).node_list()[index as int]
                },
            ),
            final(self).open_frames().len() == old(self).open_frames().len() - 1,
            forall|j: int|
                0 <= j < final(self).open_frames().len() ==> #[trigger] final(self).open_frames()[j].index
                    == old(self).open_frames()[j].index,
            final(self).node_list()[index as int].descendants_count == old(self).node_list().len() - index - 1,
            forest(final(self).node_list(), index + 1, old(self).node_list().len() as int) == Some(
                final(self).node_list()[index as int].children_count as nat,
            ),
            forall|k: int|
                index <= k < old(self).node_list().len() ==> #[trigger] final(self).node_list()[k].root_index
                    == old(self).open_frames()[0].index,
    {
        let ghost old_nodes = self.node_list();
        let ghost old_stack = self.open_frames();
        let ghost len = old_nodes.len() as int;
        let ghost t = old_stack.len() - 1;
        let frame = self.stack.pop().unwrap();
        let index = frame.index;
        let mut node = self.nodes[index];
        node.children_count = frame.children_count;
        node.descendants_count = frame.descendants_count;
        self.nodes.set(index, node);
        proof {
            let nodes = self.node_list();
            let i = index as int;
            assert(old_stack[t] == frame);
            assert(frame_end(old_stack, t, len) == len);
            assert(forest(old_nodes, i + 1, len) == Some(frame.children_count as nat));
            lemma_forest_frame(old_nodes, nodes, i + 1, len);
            assert(subtree_end(nodes, i) == len);
            lemma_single_tree(nodes, i);
            if t > 0 {
                let p = old_stack[t - 1];
                assert(frame_end(old_stack, t - 1, len) == i);
                assert(forest(old_nodes, p.index + 1, i) == Some(p.children_count as nat));
                lemma_forest_frame(old_nodes, nodes, p.index + 1, i);
                lemma_forest_concat(nodes, p.index + 1, i, len);
                lemma_forest_bound(nodes, p.index + 1, i);
                assert(self.open_frames().last() == p);
            }
        }
        self.update_parent_children_count(frame.descendants_count);
        self.update_root_node();
        proof {
            let nodes = self.node_list();
            let stack = self.open_frames();
            let i = index as int;
            if t == 0 {
                lemma_forest_frame(old_nodes, nodes, 0, i);
                lemma_forest_concat(nodes, 0, i, len);
                assert forall|k: int| 0 <= k < len implies #[trigger] nodes[k].root_index
                    == top_of(nodes, 0, len, k) by {
                    if k < i {
                        assert(nodes[k] == old_nodes[k]);
                        assert(top_of(nodes, 0, i, k) == top_of(old_nodes, 0, i, k));
                    } else {
                        assert(nodes[k].root_index == old_nodes[k].root_index);
                        assert(top_of(nodes, i, len, k) == i);
                    }
                }
            } else {
                let b = top_boundary(old_stack, len);
                assert(top_boundary(stack, len) == b);
                lemma_forest_frame(old_nodes, nodes, 0, b);
                assert forall|j: int| 0 <= j < stack.len() implies forest(
                    nodes,
                    stack[j].index + 1,
                    frame_end(stack, j, len),
                ) == Some(#[trigger] stack[j].children_count as nat) && stack[j].descendants_count
                    == frame_end(stack, j, len) - stack[j].index - 1 by {
                    if j + 1 < stack.len() {
                        assert(stack[j] == old_stack[j]);
                        assert(stack[j + 1].index == old_stack[j + 1].index);
                        assert(forest(old_nodes, old_stack[j].index + 1, frame_end(old_stack, j, len))
                            == Some(old_stack[j].children_count as nat));
                        assert(old_stack[j + 1].index < old_stack[t].index);
                        lemma_forest_frame(old_nodes, nodes, stack[j].index + 1, frame_end(old_stack, j, len));
                    }
                }
                assert forall|k: int| 0 <= k < b implies #[trigger] nodes[k].root_index == top_of(
                    nodes,
                    0,
                    b,
                    k,
                ) by {
                    assert(nodes[k] == old_nodes[k]);
                    assert(top_of(nodes, 0, b, k) == top_of(old_nodes, 0, b, k));
                }
                assert forall|k: int| b <= k < len implies #[trigger] nodes[k].root_index == b by {
                    assert(nodes[k].root_index == old_nodes[k].root_index);
                }
            }
        }
        index
    }

    /// Counts a finished child, with its descendants, in the innermost open component.
    fn update_parent_children_count(&mut self, descendants_count: u32)
        requires
            old(self).open_frames().len() > 0 ==> old(self).open_frames().last().children_count + 1 < u32::MAX
                && old(self).open_frames().last().descendants_count + 1 + descendants_count < u32::MAX,
        ensures
            final(self).node_list() == old(self).node_list(),
            final(self).current_root() == old(self).current_root(),
            final(self).open_frames().len() == old(self).open_frames().len(),
            forall|j: int|
                0 <= j < old(self).open_frames().len() - 1 ==> #[trigger] final(self).open_frames()[j]
                    == old(self).open_frames()[j],
            old(self).open_frames().len() > 0 ==> final(self).open_frames().last() == (BuildFrame {
                index: old(self).open_frames().last().index,
                children_count: (old(self).open_frames().last().children_count + 1) as u32,
                descendants_count: (old(self).open_frames().last().descendants_count + 1
                    + descendants_count) as u32,
            }),
    {
        let n = self.stack.len();
        if n > 0 {
            let mut f = self.stack[n - 1];
            f.children_count = f.children_count + 1;
            f.descendants_count = f.descendants_count + 1 + descendants_count;
            self.stack.set(n - 1, f);
        }
    }

    /// Ends the current top-level component once no component is open.
    fn update_root_node(&mut self)
        ensures
            final(self).node_list() == old(self).node_list(),
            final(self).open_frames() == old(self).open_frames(),
            final(self).current_root() == (if old(self).open_frames().len() == 0 {
                u32::MAX
            } else {
                old(self).current_root()
            }),
    {
        if self.stack.len() == 0 {
            self.root_index = u32::MAX;
        }
    }
}

} // verus!

verus! {

/// The nodes with `dirty` set for every node that is the root of one of `users`.
pub open spec fn tagged(nodes: Seq<GuiNode>, users: Seq<u32>, k: int) -> bool {
    exists|w: int| 0 <= w < users.len() && nodes[users[w] as int].root_index == k
}

impl GuiTree {
    /// The node at `k` names a top-level component of the tree.
    pub proof fn lemma_root_in_range(&self, k: int)
        requires
            self.wf(),
            0 <= k < self.node_list().len(),
        ensures
            self.node_list()[k].root_index < self.node_list().len(),
            self.node_list()[k].root_index <= k,
    {
        let b = top_boundary(self.open_frames(), self.node_list().len() as int);
        if k < b {
            lemma_top_of(self.node_list(), 0, b, k);
        }
    }

    /// The starts of the trees of the forest `nodes[lo..hi]`.
    fn starts_between(&self, lo: usize, hi: usize) -> (r: Vec<usize>)
        requires
            forest(self.node_list(), lo as int, hi as int) is Some,
            hi <= self.node_list().len(),
        ensures
            r@.len() == tree_starts(self.node_list(), lo as int, hi as int).len(),
            forall|w: int| 0 <= w < r@.len() ==> #[trigger] r@[w] as int == tree_starts(self.node_list(), lo as int, hi as int)[w],
    {
        let ghost nodes = self.node_list();
        let ghost all = tree_starts(nodes, lo as int, hi as int);
        let mut r: Vec<usize> = Vec::new();
        let mut i = lo;
        proof { lemma_forest_bound(nodes, lo as int, hi as int); }
        while i < hi
            invariant
                lo <= i <= hi,
                hi <= nodes.len(),
                nodes == self.node_list(),
                forest(nodes, i as int, hi as int) is Some,
                all == tree_starts(nodes, lo as int, hi as int),
                r@.len() + tree_starts(nodes, i as int, hi as int).len() == all.len(),
                forall|w: int| 0 <= w < r@.len() ==> #[trigger] r@[w] as int == all[w],
                forall|w: int|
                    0 <= w < tree_starts(nodes, i as int, hi as int).len() ==> #[trigger] tree_starts(nodes, i as int, hi as int)[w]
                        == all[r@.len() + w],
            decreases hi - i,
        {
            let ghost before = tree_starts(nodes, i as int, hi as int);
            let end = i + 1 + self.nodes[i].descendants_count as usize;
            assert(before == seq![i as int] + tree_starts(nodes, end as int, hi as int));
            r.push(i);
            assert(before[0] == all[r@.len() - 1]);
            assert forall|w: int|
                0 <= w < tree_starts(nodes, end as int, hi as int).len() implies #[trigger] tree_starts(nodes, end as int, hi as int)[w]
                    == all[r@.len() + w] by {
                assert(before[w + 1] == tree_starts(nodes, end as int, hi as int)[w]);
            }
            i = end;
        }
        r
    }

    /// The top-level components, in order.
    pub fn roots(&self) -> (r: Vec<usize>)
        requires
            self.wf(),
            self.complete(),
        ensures
            r@.len() == tree_starts(self.node_list(), 0, self.node_list().len() as int).len(),
            forall|w: int| 0 <= w < r@.len() ==> #[trigger] r@[w] as int == tree_starts(self.node_list(), 0, self.node_list().len() as int)[w],
    {
        self.starts_between(0, self.nodes.len())
    }

    /// The direct children of a complete component, in order.
    pub fn children(&self, i: usize) -> (r: Vec<usize>)
        requires
            self.wf(),
            i < top_boundary(self.open_frames(), self.node_list().len() as int),
        ensures
            r@.len() == self.node_list()[i as int].children_count,
            r@.len() == tree_starts(self.node_list(), i + 1, subtree_end(self.node_list(), i as int)).len(),
            forall|w: int| 0 <= w < r@.len() ==> #[trigger] r@[w] as int == tree_starts(self.node_list(), i + 1, subtree_end(self.node_list(), i as int))[w],
    {
        let ghost b = top_boundary(self.open_frames(), self.node_list().len() as int);
        proof {
            lemma_subtree(self.node_list(), 0, b, i as int);
            lemma_tree_starts_bounds(self.node_list(), i + 1, subtree_end(self.node_list(), i as int));
        }
        let end = i + 1 + self.nodes[i].descendants_count as usize;
        self.starts_between(i + 1, end)
    }

    /// Sets the dirty flag of one node.
    #[verifier::spinoff_prover]
    #[verifier::rlimit(30)]
    pub fn set_dirty(&mut self, i: usize, dirty: bool)
        requires
            old(self).wf(),
            i < old(self).node_list().len(),
        ensures
            final(self).wf(),
            final(self).open_frames() == old(self).open_frames(),
            final(self).node_list() == old(self).node_list().update(i as int, GuiNode { dirty, ..old(self).node_list()[i as int] }),
    {
        let ghost old_nodes = self.node_list();
        let mut node = self.nodes[i];
        node.dirty = dirty;
        self.nodes.set(i, node);
        proof {
            let nodes = self.node_list();
            let stack = self.open_frames();
            let len = nodes.len() as int;
            let b = top_boundary(stack, len);
            lemma_forest_frame(old_nodes, nodes, 0, b);
            assert forall|j: int| 0 <= j < stack.len() implies forest(
                nodes,
                stack[j].index + 1,
                frame_end(stack, j, len),
            ) == Some(#[trigger] stack[j].children_count as nat) && stack[j].descendants_count
                == frame_end(stack, j, len) - stack[j].index - 1 by {
                if j + 1 < stack.len() {
                    assert(stack[j].index < stack[j + 1].index);
                }
                lemma_forest_frame(old_nodes, nodes, stack[j].index + 1, frame_end(stack, j, len));
            }
            assert forall|k: int| 0 <= k < b implies #[trigger] nodes[k].root_index == top_of(
                nodes,
                0,
                b,
                k,
            ) by {
                assert(top_of(nodes, 0, b, k) == top_of(old_nodes, 0, b, k));
            }
        }
    }

    /// Marks dirty the top-level components that hold any of `users`.
    pub fn tag_roots(&mut self, users: &Vec<u32>)
        requires
            old(self).wf(),
            forall|w: int| 0 <= w < users@.len() ==> #[trigger] users@[w] < old(self).node_list().len(),
        ensures
            final(self).wf(),
            final(self).open_frames() == old(self).open_frames(),
            final(self).node_list().len() == old(self).node_list().len(),
            forall|k: int|
                0 <= k < old(self).node_list().len() ==> #[trigger] final(self).node_list()[k] == (GuiNode {
                    dirty: old(self).node_list()[k].dirty || tagged(old(self).node_list(), users@, k),
                    ..old(self).node_list()[k]
                }),
    {
        let ghost old_nodes = self.node_list();
        let mut w: usize = 0;
        while w < users.len()
            invariant
                self.wf(),
                self.open_frames() == old(self).open_frames(),
                old_nodes == old(self).node_list(),
                w <= users@.len(),
                self.node_list().len() == old_nodes.len(),
                forall|v: int| 0 <= v < users@.len() ==> #[trigger] users@[v] < old_nodes.len(),
                forall|k: int|
                    0 <= k < old_nodes.len() ==> #[trigger] self.node_list()[k] == (GuiNode {
                        dirty: old_nodes[k].dirty || tagged(old_nodes, users@.subrange(0, w as int), k),
                        ..old_nodes[k]
                    }),
            decreases users@.len() - w,
        {
            let u = users[w] as usize;
            proof {
                self.lemma_root_in_range(u as int);
            }
            let r = self.nodes[u].root_index as usize;
            self.set_dirty(r, true);
            proof {
                assert(self.node_list()[u as int].root_index == old_nodes[u as int].root_index);
                assert forall|k: int| 0 <= k < old_nodes.len() implies #[trigger] self.node_list()[k] == (GuiNode {
                    dirty: old_nodes[k].dirty || tagged(old_nodes, users@.subrange(0, w + 1), k),
                    ..old_nodes[k]
                }) by {
                    let s1 = users@.subrange(0, w as int);
                    let s2 = users@.subrange(0, w + 1);
                    if tagged(old_nodes, s1, k) {
                        let v = choose|v: int| 0 <= v < s1.len() && old_nodes[s1[v] as int].root_index == k;
                        assert(s2[v] == s1[v]);
                    }
                    if tagged(old_nodes, s2, k) && !tagged(old_nodes, s1, k) {
                        let v = choose|v: int| 0 <= v < s2.len() && old_nodes[s2[v] as int].root_index == k;
                        if v < w {
                            assert(s1[v] == s2[v]);
                        }
                    }
                    if k == r {
                        assert(s2[w as int] == u);
                    }
                }
            }
            w = w + 1;
        }
        proof {
            assert(users@.subrange(0, users@.len() as int) == users@);
        }
    }
}

/// A node of a complete tree is a top-level component exactly when it names
/// itself as the top-level component that holds it.
pub proof fn lemma_root_names_itself(tree: &GuiTree, k: int)
    requires
        tree.wf(),
        tree.complete(),
        0 <= k < tree.node_list().len(),
    ensures
        tree_starts(tree.node_list(), 0, tree.node_list().len() as int).contains(k) <==> tree.node_list()[k].root_index == k,
{
    lemma_top_of(tree.node_list(), 0, tree.node_list().len() as int, k);
}

impl GuiTree {
    /// The top-level components whose layout must be computed again, in order.
    pub fn dirty_roots(&self) -> (r: Vec<usize>)
        requires
            self.wf(),
            self.complete(),
        ensures
            r@.len() == tree_starts(self.node_list(), 0, self.node_list().len() as int).filter(|k: int| self.node_list()[k].dirty).len(),
            forall|w: int|
                0 <= w < r@.len() ==> #[trigger] r@[w] as int == tree_starts(self.node_list(), 0, self.node_list().len() as int).filter(
                    |k: int| self.node_list()[k].dirty,
                )[w],
    {
        let roots = self.roots();
        let ghost starts = tree_starts(self.node_list(), 0, self.node_list().len() as int);
        let ghost pred = |k: int| self.node_list()[k].dirty;
        proof {
            lemma_tree_starts_bounds(self.node_list(), 0, self.node_list().len() as int);
            assert(starts.subrange(0, 0).filter(pred) =~= Seq::<int>::empty()) by {
                reveal_with_fuel(Seq::filter, 1);
            }
        }
        let mut r: Vec<usize> = Vec::new();
        let mut i: usize = 0;
        while i < roots.len()
            invariant
                i <= roots@.len(),
                roots@.len() == starts.len(),
                forall|w: int| 0 <= w < roots@.len() ==> #[trigger] roots@[w] as int == starts[w],
                forall|w: int| 0 <= w < starts.len() ==> 0 <= #[trigger] starts[w] < self.node_list().len(),
                pred == (|k: int| self.node_list()[k].dirty),
                r@.len() == starts.subrange(0, i as int).filter(pred).len(),
                forall|w: int| 0 <= w < r@.len() ==> #[trigger] r@[w] as int == starts.subrange(0, i as int).filter(pred)[w],
            decreases roots@.len() - i,
        {
            let k = roots[i];
            proof {
                assert(starts.subrange(0, i + 1).drop_last() =~= starts.subrange(0, i as int));
                assert(starts.subrange(0, i + 1).filter(pred) == if pred(starts[i as int]) {
                    starts.subrange(0, i as int).filter(pred).push(starts[i as int])
                } else {
                    starts.subrange(0, i as int).filter(pred)
                }) by {
                    reveal_with_fuel(Seq::filter, 1);
                }
            }
            if self.nodes[k].dirty {
                r.push(k);
            }
            i = i + 1;
        }
        proof {
            assert(starts.subrange(0, starts.len() as int) =~= starts);
        }
        r
    }

    /// Marks clean every node of the complete component at `root` and of its
    /// descendants, once its layout is computed.
    pub fn clean_subtree(&mut self, root: usize)
        requires
            old(self).wf(),
            root < top_boundary(old(self).open_frames(), old(self).node_list().len() as int),
        ensures
            final(self).wf(),
            final(self).open_frames() == old(self).open_frames(),
            final(self).node_list().len() == old(self).node_list().len(),
            forall|k: int|
                0 <= k < old(self).node_list().len() ==> #[trigger] final(self).node_list()[k] == if root <= k < subtree_end(
                    old(self).node_list(),
                    root as int,
                ) {
                    GuiNode { dirty: false, ..old(self).node_list()[k] }
                } else {
                    old(self).node_list()[k]
                },
    {
        let ghost old_nodes = self.node_list();
        let ghost b = top_boundary(self.open_frames(), self.node_list().len() as int);
        proof {
            lemma_subtree(self.node_list(), 0, b, root as int);
        }
        let end = root + 1 + self.nodes[root].descendants_count as usize;
        let mut k = root;
        while k < end
            invariant
                self.wf(),
                self.open_frames() == old(self).open_frames(),
                old_nodes == old(self).node_list(),
                self.node_list().len() == old_nodes.len(),
                root <= k <= end,
                end == subtree_end(old_nodes, root as int),
                end <= old_nodes.len(),
                forall|j: int|
                    0 <= j < old_nodes.len() ==> #[trigger] self.node_list()[j] == if root <= j < k {
                        GuiNode { dirty: false, ..old_nodes[j] }
                    } else {
                        old_nodes[j]
                    },
            decreases end - k,
        {
            self.set_dirty(k, false);
            k = k + 1;
        }
    }
}

} // verus!
