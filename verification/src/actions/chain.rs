//! Actions that run over several frames, and actions queued to run after them.
use vstd::prelude::*;
use crate::world::{TreeData, WorldObject, WorldObjectType};

verus! {

/// What an action does. `P` is the type of a world position.
#[derive(Debug, Clone, Copy)]
pub enum ActionType<P> {
    Completed,
    MovePawn { id: u32, target: P },
    CutTree { pawn_id: u32, tree_id: u32 },
}

/// Whether two action types count as the same action: both completed, or
/// both moving the same pawn. Other actions never count as the same.
pub open spec fn same_action<P>(a: ActionType<P>, b: ActionType<P>) -> bool {
    match (a, b) {
        (ActionType::Completed, ActionType::Completed) => true,
        (ActionType::MovePawn { id: id1, .. }, ActionType::MovePawn { id: id2, .. }) => id1 == id2,
        _ => false,
    }
}

impl<P> PartialEq for ActionType<P> {
    fn eq(&self, other: &Self) -> (r: bool) {
        match (self, other) {
            (ActionType::Completed, ActionType::Completed) => true,
            (ActionType::MovePawn { id: id1, .. }, ActionType::MovePawn { id: id2, .. }) => *id1 == *id2,
            _ => false,
        }
    }
}

impl<P> vstd::std_specs::cmp::PartialEqSpecImpl for ActionType<P> {
    open spec fn obeys_eq_spec() -> bool {
        true
    }

    open spec fn eq_spec(&self, other: &Self) -> bool {
        same_action(*self, *other)
    }
}

/// Where an action is in its run.
#[derive(Debug, Clone, Copy, PartialEq, Eq, Structural)]
pub enum ActionState {
    Initial,
    Running,
    Finalizing,
    Finalized,
}

/// An action, and the queued action to run once it is finalized (`u32::MAX` for none).
#[derive(Debug, Clone, Copy)]
pub struct Action<P> {
    pub ty: ActionType<P>,
    pub next: u32,
    pub state: ActionState,
}

/// The action that does nothing and is over.
pub open spec fn completed_action<P>() -> Action<P> {
    Action { ty: ActionType::Completed, next: u32::MAX, state: ActionState::Finalized }
}

impl<P: Copy> Action<P> {
    /// The action that does nothing and is over.
    pub fn completed() -> (a: Self)
        ensures
            a == completed_action::<P>(),
    {
        Action { ty: ActionType::Completed, next: u32::MAX, state: ActionState::Finalized }
    }

    /// Moves `obj` to `position`; only a pawn can be moved this way.
    pub fn move_to(obj: WorldObject, position: P) -> (a: Self)
        ensures
            a.next == u32::MAX,
            a.state == ActionState::Initial,
            a.ty == (if obj.ty == WorldObjectType::Pawn {
                ActionType::MovePawn { id: obj.id, target: position }
            } else {
                ActionType::Completed
            }),
    {
        let ty = match obj.ty {
            WorldObjectType::Pawn => ActionType::MovePawn { id: obj.id, target: position },
            _ => ActionType::Completed,
        };
        Action { ty, next: u32::MAX, state: ActionState::Initial }
    }

    /// Has `pawn` cut `tree`; only a pawn can cut, and only a tree.
    pub fn cut_tree(pawn: WorldObject, tree: WorldObject) -> (a: Self)
        ensures
            a.next == u32::MAX,
            a.state == ActionState::Initial,
            a.ty == (if pawn.ty == WorldObjectType::Pawn && tree.ty == WorldObjectType::Tree {
                ActionType::<P>::CutTree { pawn_id: pawn.id, tree_id: tree.id }
            } else {
                ActionType::Completed
            }),
    {
        let ty = match (pawn.ty, tree.ty) {
            (WorldObjectType::Pawn, WorldObjectType::Tree) => ActionType::CutTree {
                pawn_id: pawn.id,
                tree_id: tree.id,
            },
            _ => ActionType::Completed,
        };
        Action { ty, next: u32::MAX, state: ActionState::Initial }
    }

    /// Whether the action does nothing.
    pub fn is_completed(&self) -> (b: bool)
        ensures
            b == (self.ty is Completed),
    {
        match self.ty {
            ActionType::Completed => true,
            _ => false,
        }
    }
}

/// `p` is a walk along the queue links of `q`: each step follows `next`.
pub open spec fn is_chain<P>(q: Seq<Action<P>>, p: Seq<int>) -> bool {
    &&& p.len() >= 1
    &&& forall|t: int| 0 <= t < p.len() ==> 0 <= #[trigger] p[t] < q.len()
    &&& forall|t: int|
        0 <= t < p.len() - 1 ==> q[#[trigger] p[t]].next != u32::MAX && p[t + 1] == q[p[t]].next
}

/// The queued action `k` runs after `i` (or is `i`): it can be reached from `i` along the links.
pub open spec fn queued_after<P>(q: Seq<Action<P>>, i: int, k: int) -> bool {
    exists|p: Seq<int>| #[trigger] is_chain(q, p) && p[0] == i && p.last() == k
}

/// The number of queued actions that link to another one.
pub open spec fn linked_count<P>(q: Seq<Action<P>>) -> nat
    decreases q.len(),
{
    if q.len() == 0 {
        0
    } else {
        linked_count(q.drop_last()) + if q.last().next != u32::MAX { 1nat } else { 0nat }
    }
}

pub proof fn lemma_linked_count_update<P>(q: Seq<Action<P>>, i: int, a: Action<P>)
    requires
        0 <= i < q.len(),
    ensures
        linked_count(q.update(i, a)) + (if q[i].next != u32::MAX { 1int } else { 0int })
            == linked_count(q) + (if a.next != u32::MAX { 1int } else { 0int }),
    decreases q.len(),
{
    if i == q.len() - 1 {
        assert(q.update(i, a).drop_last() =~= q.drop_last());
    } else {
        assert(q.update(i, a).drop_last() =~= q.drop_last().update(i, a));
        lemma_linked_count_update(q.drop_last(), i, a);
    }
}

/// Once `i` is cut off (its link removed), what `i`'s old link reaches was reachable from `i`.
proof fn lemma_cut_reach_back<P>(q: Seq<Action<P>>, i: int, k: int)
    requires
        0 <= i < q.len(),
        q[i].next != u32::MAX,
        queued_after(q.update(i, completed_action::<P>()), q[i].next as int, k),
    ensures
        queued_after(q, i, k),
{
    let q1 = q.update(i, completed_action::<P>());
    let p = choose|p: Seq<int>| #[trigger] is_chain(q1, p) && p[0] == q[i].next as int && p.last() == k;
    let p2 = seq![i] + p;
    assert forall|t: int| 0 <= t < p.len() - 1 implies p[t] != i by {
        assert(q1[p[t]].next != u32::MAX);
    }
    assert forall|t: int| 0 <= t < p2.len() implies 0 <= #[trigger] p2[t] < q.len() by {
        if t > 0 {
            assert(p2[t] == p[t - 1]);
        }
    }
    assert forall|t: int| 0 <= t < p2.len() - 1 implies q[#[trigger] p2[t]].next != u32::MAX && p2[t + 1] == q[p2[t]].next by {
        if t > 0 {
            assert(p2[t] == p[t - 1]);
            assert(p2[t + 1] == p[t]);
            assert(p[t - 1] != i);
            assert(q1[p[t - 1]] == q[p[t - 1]]);
        }
    }
    assert(is_chain(q, p2));
    assert(p2.last() == k);
}

/// What `i` reaches, other than `i` itself, stays reachable from `i`'s old
/// link once `i` is cut off.
proof fn lemma_cut_reach_forward<P>(q: Seq<Action<P>>, i: int, p: Seq<int>)
    requires
        0 <= i < q.len(),
        is_chain(q, p),
        p[0] == i,
        p.last() != i,
    ensures
        queued_after(q.update(i, completed_action::<P>()), q[i].next as int, p.last()),
    decreases p.len(),
{
    let q1 = q.update(i, completed_action::<P>());
    assert(p.len() >= 2);
    assert(q[p[0]].next != u32::MAX);
    if exists|t: int| 1 <= t < p.len() && p[t] == i {
        let t = choose|t: int| 1 <= t < p.len() && p[t] == i;
        let p2 = p.subrange(t, p.len() as int);
        assert forall|u: int| 0 <= u < p2.len() - 1 implies q[#[trigger] p2[u]].next != u32::MAX && p2[u + 1] == q[p2[u]].next by {
            assert(p2[u] == p[t + u]);
            assert(p2[u + 1] == p[t + u + 1]);
        }
        assert(is_chain(q, p2));
        lemma_cut_reach_forward(q, i, p2);
    } else {
        let p2 = p.subrange(1, p.len() as int);
        assert forall|u: int| 0 <= u < p2.len() implies 0 <= #[trigger] p2[u] < q1.len() by {
            assert(p2[u] == p[u + 1]);
        }
        assert forall|u: int| 0 <= u < p2.len() - 1 implies q1[#[trigger] p2[u]].next != u32::MAX && p2[u + 1] == q1[p2[u]].next by {
            assert(p2[u] == p[u + 1]);
            assert(p2[u + 1] == p[u + 2]);
            assert(p[u + 1] != i);
        }
        assert(is_chain(q1, p2));
        assert(p2[0] == q[i].next as int);
        assert(p2.last() == p.last());
    }
}

/// Cutting `i` off: reachability from `i` in the old links is `i` itself,
/// or reachability from its old link in the new ones.
pub proof fn lemma_cut_reach<P>(q: Seq<Action<P>>, i: int, k: int)
    requires
        0 <= i < q.len(),
        q[i].next != u32::MAX,
    ensures
        queued_after(q, i, k) <==> (k == i || queued_after(
            q.update(i, completed_action::<P>()),
            q[i].next as int,
            k,
        )),
{
    if queued_after(q, i, k) && k != i {
        let p = choose|p: Seq<int>| #[trigger] is_chain(q, p) && p[0] == i && p.last() == k;
        lemma_cut_reach_forward(q, i, p);
    }
    if k == i {
        assert(is_chain(q, seq![i]));
    }
    if queued_after(q.update(i, completed_action::<P>()), q[i].next as int, k) {
        lemma_cut_reach_back(q, i, k);
    }
}

/// Without a link, an action reaches only itself.
pub proof fn lemma_unlinked_reach<P>(q: Seq<Action<P>>, i: int, k: int)
    requires
        0 <= i < q.len(),
        q[i].next == u32::MAX,
    ensures
        queued_after(q, i, k) <==> k == i,
{
    if queued_after(q, i, k) {
        let p = choose|p: Seq<int>| #[trigger] is_chain(q, p) && p[0] == i && p.last() == k;
        if p.len() >= 2 {
            assert(q[p[0]].next != u32::MAX);
        }
    }
    if k == i {
        assert(is_chain(q, seq![i]));
    }
}

} // verus!

verus! {

/// Reachability along the links is transitive.
pub proof fn lemma_reach_trans<P>(q: Seq<Action<P>>, a: int, b: int, c: int)
    requires
        queued_after(q, a, b),
        queued_after(q, b, c),
    ensures
        queued_after(q, a, c),
{
    let p1 = choose|p: Seq<int>| #[trigger] is_chain(q, p) && p[0] == a && p.last() == b;
    let p2 = choose|p: Seq<int>| #[trigger] is_chain(q, p) && p[0] == b && p.last() == c;
    let p = p1 + p2.subrange(1, p2.len() as int);
    assert forall|t: int| 0 <= t < p.len() implies 0 <= #[trigger] p[t] < q.len() by {
        if t >= p1.len() {
            assert(p[t] == p2[t - p1.len() + 1]);
        }
    }
    assert forall|t: int| 0 <= t < p.len() - 1 implies q[#[trigger] p[t]].next != u32::MAX && p[t + 1] == q[p[t]].next by {
        if t < p1.len() - 1 {
            assert(p[t] == p1[t]);
            assert(p[t + 1] == p1[t + 1]);
        } else if t == p1.len() - 1 {
            assert(p[t] == b);
            assert(p2[0] == b);
            assert(p[t + 1] == p2[1]);
        } else {
            assert(p[t] == p2[t - p1.len() + 1]);
            assert(p[t + 1] == p2[t - p1.len() + 2]);
        }
    }
    assert(is_chain(q, p));
    if p2.len() == 1 {
        assert(p =~= p1);
    } else {
        assert(p.last() == p2.last());
    }
}

/// Replacing a set of queued actions, closed under the links, by completed
/// actions: what a further cancellation reaches, together with that set, is
/// what it would have reached in the old links, together with that set.
pub proof fn lemma_cancel_step<P>(q_old: Seq<Action<P>>, q_cur: Seq<Action<P>>, s: Set<int>, j: int, k: int)
    requires
        q_cur.len() == q_old.len(),
        forall|x: int| 0 <= x < q_old.len() ==> #[trigger] q_cur[x] == if s.contains(x) {
            completed_action::<P>()
        } else {
            q_old[x]
        },
        forall|a: int, b: int| s.contains(a) && #[trigger] queued_after(q_old, a, b) ==> s.contains(b),
        0 <= j < q_old.len(),
        0 <= k < q_old.len(),
    ensures
        (queued_after(q_cur, j, k) || s.contains(k)) <==> (queued_after(q_old, j, k) || s.contains(k)),
{
    if queued_after(q_cur, j, k) && !s.contains(k) {
        let p = choose|p: Seq<int>| #[trigger] is_chain(q_cur, p) && p[0] == j && p.last() == k;
        assert forall|t: int| 0 <= t < p.len() - 1 implies q_old[#[trigger] p[t]].next != u32::MAX && p[t + 1] == q_old[p[t]].next by {
            assert(q_cur[p[t]].next != u32::MAX);
            assert(!s.contains(p[t]));
        }
        assert(is_chain(q_old, p));
    }
    if queued_after(q_old, j, k) && !s.contains(k) {
        let p = choose|p: Seq<int>| #[trigger] is_chain(q_old, p) && p[0] == j && p.last() == k;
        assert forall|t: int| 0 <= t < p.len() implies !s.contains(#[trigger] p[t]) by {
            if s.contains(p[t]) {
                let p2 = p.subrange(t, p.len() as int);
                assert forall|u: int| 0 <= u < p2.len() - 1 implies q_old[#[trigger] p2[u]].next != u32::MAX && p2[u + 1] == q_old[p2[u]].next by {
                    assert(p2[u] == p[t + u]);
                    assert(p2[u + 1] == p[t + u + 1]);
                }
                assert(is_chain(q_old, p2));
                assert(queued_after(q_old, p[t], k));
            }
        }
        assert forall|t: int| 0 <= t < p.len() - 1 implies q_cur[#[trigger] p[t]].next != u32::MAX && p[t + 1] == q_cur[p[t]].next by {
            assert(!s.contains(p[t]));
        }
        assert(is_chain(q_cur, p));
    }
}

} // verus!

verus! {

/// A filtered sequence is no longer than the sequence.
pub proof fn lemma_filter_len_bound<A>(s: Seq<A>, pred: spec_fn(A) -> bool)
    ensures
        s.filter(pred).len() <= s.len(),
    decreases s.len(),
{
    reveal_with_fuel(Seq::filter, 1);
    if s.len() > 0 {
        lemma_filter_len_bound(s.drop_last(), pred);
    }
}

/// The link of `a` is none or names a queued action.
pub open spec fn link_ok<P>(a: Action<P>, queued_len: int) -> bool {
    a.next == u32::MAX || a.next < queued_len
}

/// `a` is an action on the pawn `object`.
pub open spec fn acts_on<P>(a: Action<P>, object: WorldObject) -> bool {
    match a.ty {
        ActionType::MovePawn { id, .. } => id == object.id,
        ActionType::CutTree { pawn_id, .. } => pawn_id == object.id,
        _ => false,
    }
}

/// Once the actions on a pawn are cancelled (each active action on it
/// replaced by a completed action, the others kept), no active action acts on it.
pub proof fn lemma_cancel_clears_pawn<P>(before: Seq<Action<P>>, after: Seq<Action<P>>, object: WorldObject)
    requires
        after.len() == before.len(),
        forall|t: int|
            0 <= t < before.len() ==> #[trigger] after[t] == if acts_on(before[t], object) {
                completed_action::<P>()
            } else {
                before[t]
            },
    ensures
        forall|t: int| 0 <= t < after.len() ==> !acts_on(#[trigger] after[t], object),
{
    assert forall|t: int| 0 <= t < after.len() implies !acts_on(#[trigger] after[t], object) by {
        if acts_on(before[t], object) {
            assert(after[t] == completed_action::<P>());
        }
    }
}

/// `r` is the first queued slot holding a completed action, or the end when none does.
pub open spec fn first_completed_slot<P>(q: Seq<Action<P>>, r: int) -> bool {
    &&& 0 <= r <= q.len()
    &&& r < q.len() ==> q[r].ty is Completed
    &&& forall|j: int| 0 <= j < r ==> !((#[trigger] q[j]).ty is Completed)
}

/// The active actions, the actions queued behind them, and the cancelled
/// actions waiting for their cancel step.
pub struct ActionsManager<P> {
    pub active: Vec<Action<P>>,
    pub queued: Vec<Action<P>>,
    pub cancelled: Vec<Action<P>>,
    pub dirty_actions: u32,
}

/// The queued action `k` is cancelled along with one of the first `n` active actions on `object`.
pub open spec fn cancelled_behind<P>(active: Seq<Action<P>>, q: Seq<Action<P>>, object: WorldObject, n: int, k: int) -> bool {
    exists|t: int|
        0 <= t < n && acts_on(#[trigger] active[t], object) && active[t].next != u32::MAX
            && queued_after(q, active[t].next as int, k)
}

impl<P: Copy> ActionsManager<P> {
    /// Every link names a queued action.
    pub open spec fn wf(&self) -> bool {
        &&& forall|i: int| 0 <= i < self.active@.len() ==> link_ok(#[trigger] self.active@[i], self.queued@.len() as int)
        &&& forall|i: int| 0 <= i < self.queued@.len() ==> link_ok(#[trigger] self.queued@[i], self.queued@.len() as int)
    }

    /// No action at all.
    pub fn new() -> (m: Self)
        ensures
            m.wf(),
            m.active@.len() == 0,
            m.queued@.len() == 0,
            m.cancelled@.len() == 0,
            m.dirty_actions == 0,
    {
        ActionsManager { active: Vec::new(), queued: Vec::new(), cancelled: Vec::new(), dirty_actions: 0 }
    }

    /// Starts an action; a completed action is dropped.
    pub fn push(&mut self, action: Action<P>)
        requires
            old(self).wf(),
            link_ok(action, old(self).queued@.len() as int),
        ensures
            final(self).wf(),
            final(self).active@ == (if action.ty is Completed {
                old(self).active@
            } else {
                old(self).active@.push(action)
            }),
            final(self).queued == old(self).queued,
            final(self).cancelled == old(self).cancelled,
            final(self).dirty_actions == old(self).dirty_actions,
    {
        if action.is_completed() {
            return;
        }
        self.active.push(action);
    }

    /// Queues an action in the first slot of a completed one, or at the end,
    /// and returns its slot.
    pub fn push_queued(&mut self, action: Action<P>) -> (id: u32)
        requires
            old(self).wf(),
            link_ok(action, old(self).queued@.len() as int),
            old(self).queued@.len() < u32::MAX,
        ensures
            final(self).wf(),
            first_completed_slot(old(self).queued@, id as int),
            final(self).queued@ == (if id < old(self).queued@.len() {
                old(self).queued@.update(id as int, action)
            } else {
                old(self).queued@.push(action)
            }),
            final(self).active == old(self).active,
            final(self).cancelled == old(self).cancelled,
            final(self).dirty_actions == old(self).dirty_actions,
    {
        let mut i: usize = 0;
        while i < self.queued.len()
            invariant
                i <= self.queued@.len(),
                self.queued@ == old(self).queued@,
                self.active == old(self).active,
                self.cancelled == old(self).cancelled,
                self.dirty_actions == old(self).dirty_actions,
                old(self).wf(),
                self.queued@.len() < u32::MAX,
                link_ok(action, old(self).queued@.len() as int),
                forall|j: int| 0 <= j < i ==> !((#[trigger] self.queued@[j]).ty is Completed),
            decreases self.queued@.len() - i,
        {
            if self.queued[i].is_completed() {
                self.queued.set(i, action);
                return i as u32;
            }
            i = i + 1;
        }
        let id = self.queued.len() as u32;
        self.queued.push(action);
        proof {
            assert forall|j: int| 0 <= j < self.queued@.len() implies link_ok(#[trigger] self.queued@[j], self.queued@.len() as int) by {
                if j < old(self).queued@.len() {
                    assert(link_ok(old(self).queued@[j], old(self).queued@.len() as int));
                }
            }
            assert forall|j: int| 0 <= j < self.active@.len() implies link_ok(#[trigger] self.active@[j], self.queued@.len() as int) by {
                assert(link_ok(old(self).active@[j], old(self).queued@.len() as int));
            }
        }
        id
    }

    /// Starts `action`, and queues `then` to run once it is finalized.
    /// A completed `action` drops both.
    pub fn push_and_queue(&mut self, action: Action<P>, then: Action<P>)
        requires
            old(self).wf(),
            link_ok(action, old(self).queued@.len() as int),
            link_ok(then, old(self).queued@.len() as int),
            old(self).queued@.len() < u32::MAX,
        ensures
            final(self).wf(),
            action.ty is Completed ==> *final(self) == *old(self),
            !(action.ty is Completed) ==> exists|id: int|
                first_completed_slot(old(self).queued@, id)
                && final(self).queued@ == (if id < old(self).queued@.len() {
                    old(self).queued@.update(id, then)
                } else {
                    old(self).queued@.push(then)
                })
                && final(self).active@ == old(self).active@.push(Action { next: id as u32, ..action }),
            final(self).cancelled == old(self).cancelled,
            final(self).dirty_actions == old(self).dirty_actions,
    {
        if action.is_completed() {
            return;
        }
        let queued_index = self.push_queued(then);
        let mut action = action;
        action.next = queued_index;
        self.active.push(action);
    }

    /// Cancels every active action on the pawn `object`, and every queued
    /// action behind them. The cancelled active actions are kept for their
    /// cancel step; the queued ones are dropped without it. Objects that are
    /// not pawns have no actions to cancel.
    pub fn cancel_object_actions(&mut self, object: WorldObject)
        requires
            old(self).wf(),
            old(self).dirty_actions + old(self).active@.len() <= u32::MAX,
        ensures
            final(self).wf(),
            object.ty != WorldObjectType::Pawn ==> *final(self) == *old(self),
            object.ty == WorldObjectType::Pawn ==> {
                let matched = old(self).active@.filter(|a: Action<P>| acts_on(a, object));
                &&& final(self).active@.len() == old(self).active@.len()
                &&& forall|t: int| 0 <= t < old(self).active@.len() ==> #[trigger] final(self).active@[t]
                    == if acts_on(old(self).active@[t], object) { completed_action::<P>() } else { old(self).active@[t] }
                &&& final(self).cancelled@ == old(self).cancelled@ + matched
                &&& final(self).dirty_actions == old(self).dirty_actions + matched.len()
                &&& final(self).queued@.len() == old(self).queued@.len()
                &&& forall|k: int| 0 <= k < old(self).queued@.len() ==> #[trigger] final(self).queued@[k]
                    == if cancelled_behind(old(self).active@, old(self).queued@, object, old(self).active@.len() as int, k) {
                        completed_action::<P>()
                    } else {
                        old(self).queued@[k]
                    }
            },
    {
        if object.ty != WorldObjectType::Pawn {
            return;
        }
        let ghost old_active = self.active@;
        let ghost old_q = self.queued@;
        let ghost old_cancelled = self.cancelled@;
        let ghost pred = |a: Action<P>| acts_on(a, object);
        let mut action_index: usize = 0;
        proof {
            assert(old_active.subrange(0, 0).filter(pred) =~= Seq::<Action<P>>::empty()) by {
                reveal_with_fuel(Seq::filter, 1);
            }
        }
        while action_index < self.active.len()
            invariant
                self.wf(),
                object.ty == WorldObjectType::Pawn,
                action_index <= self.active@.len(),
                self.active@.len() == old_active.len(),
                self.queued@.len() == old_q.len(),
                old(self).dirty_actions + old_active.len() <= u32::MAX,
                forall|t: int| action_index <= t < old_active.len() ==> #[trigger] self.active@[t] == old_active[t],
                forall|t: int| 0 <= t < action_index ==> #[trigger] self.active@[t]
                    == if acts_on(old_active[t], object) { completed_action::<P>() } else { old_active[t] },
                self.cancelled@ == old_cancelled + old_active.subrange(0, action_index as int).filter(pred),
                self.dirty_actions == old(self).dirty_actions + old_active.subrange(0, action_index as int).filter(pred).len(),
                forall|k: int| 0 <= k < old_q.len() ==> #[trigger] self.queued@[k]
                    == if cancelled_behind(old_active, old_q, object, action_index as int, k) {
                        completed_action::<P>()
                    } else {
                        old_q[k]
                    },
                pred == (|a: Action<P>| acts_on(a, object)),
            decreases old_active.len() - action_index,
        {
            let action = self.active[action_index];
            let cancel = match action.ty {
                ActionType::MovePawn { id, .. } => id == object.id,
                ActionType::CutTree { pawn_id, .. } => pawn_id == object.id,
                _ => false,
            };
            let ghost idx = action_index as int;
            let ghost q_cur = self.queued@;
            proof {
                assert(old_active.subrange(0, idx + 1).drop_last() =~= old_active.subrange(0, idx));
                assert(old_active.subrange(0, idx + 1).filter(pred) == if acts_on(old_active[idx], object) {
                    old_active.subrange(0, idx).filter(pred).push(old_active[idx])
                } else {
                    old_active.subrange(0, idx).filter(pred)
                }) by {
                    reveal_with_fuel(Seq::filter, 1);
                }
                lemma_filter_len_bound(old_active.subrange(0, idx + 1), pred);
            }
            if cancel {
                if action.next != u32::MAX {
                    let ghost j = action.next as int;
                    proof {
                        assert(link_ok(self.active@[idx], self.queued@.len() as int));
                    }
                    self.cancel_queued_actions(action.next as usize);
                    proof {
                        let s = Set::new(|k: int| cancelled_behind(old_active, old_q, object, idx, k));
                        assert forall|a: int, b: int| s.contains(a) && #[trigger] queued_after(old_q, a, b) implies s.contains(b) by {
                            let t = choose|t: int| 0 <= t < idx && acts_on(#[trigger] old_active[t], object)
                                && old_active[t].next != u32::MAX && queued_after(old_q, old_active[t].next as int, a);
                            lemma_reach_trans(old_q, old_active[t].next as int, a, b);
                        }
                        assert forall|k: int| 0 <= k < old_q.len() implies #[trigger] self.queued@[k]
                            == if cancelled_behind(old_active, old_q, object, idx + 1, k) {
                                completed_action::<P>()
                            } else {
                                old_q[k]
                            } by {
                            lemma_cancel_step(old_q, q_cur, s, j, k);
                            if cancelled_behind(old_active, old_q, object, idx + 1, k) && !s.contains(k) {
                                let t = choose|t: int| 0 <= t < idx + 1 && acts_on(#[trigger] old_active[t], object)
                                    && old_active[t].next != u32::MAX && queued_after(old_q, old_active[t].next as int, k);
                                assert(t == idx);
                            }
                            if queued_after(old_q, j, k) {
                                assert(acts_on(old_active[idx], object));
                            }
                            if s.contains(k) {
                                let t = choose|t: int| 0 <= t < idx && acts_on(#[trigger] old_active[t], object)
                                    && old_active[t].next != u32::MAX && queued_after(old_q, old_active[t].next as int, k);
                                assert(cancelled_behind(old_active, old_q, object, idx + 1, k));
                            }
                        }
                    }
                } else {
                    proof {
                        assert forall|k: int| 0 <= k < old_q.len() implies #[trigger] self.queued@[k]
                            == if cancelled_behind(old_active, old_q, object, idx + 1, k) {
                                completed_action::<P>()
                            } else {
                                old_q[k]
                            } by {
                            if cancelled_behind(old_active, old_q, object, idx + 1, k) {
                                let t = choose|t: int| 0 <= t < idx + 1 && acts_on(#[trigger] old_active[t], object)
                                    && old_active[t].next != u32::MAX && queued_after(old_q, old_active[t].next as int, k);
                                assert(t != idx);
                            }
                        }
                    }
                }
                self.cancelled.push(action);
                self.active.set(action_index, Action::completed());
                self.dirty_actions = self.dirty_actions + 1;
            } else {
                proof {
                    assert forall|k: int| 0 <= k < old_q.len() implies #[trigger] self.queued@[k]
                        == if cancelled_behind(old_active, old_q, object, idx + 1, k) {
                            completed_action::<P>()
                        } else {
                            old_q[k]
                        } by {
                        if cancelled_behind(old_active, old_q, object, idx + 1, k) {
                            let t = choose|t: int| 0 <= t < idx + 1 && acts_on(#[trigger] old_active[t], object)
                                && old_active[t].next != u32::MAX && queued_after(old_q, old_active[t].next as int, k);
                            assert(t != idx);
                        }
                    }
                }
            }
            action_index = action_index + 1;
        }
        proof {
            assert(old_active.subrange(0, old_active.len() as int) =~= old_active);
        }
    }

    /// Once the active action at `index` ran for this frame: a finalized
    /// action gives way to the action queued behind it, or, when there is
    /// none, becomes a completed action waiting to be cleaned.
    pub fn settle_active(&mut self, index: usize)
        requires
            old(self).wf(),
            index < old(self).active@.len(),
            old(self).dirty_actions < u32::MAX,
        ensures
            final(self).wf(),
            final(self).cancelled == old(self).cancelled,
            ({
                let a = old(self).active@[index as int];
                if a.state != ActionState::Finalized {
                    *final(self) == *old(self)
                } else if a.next == u32::MAX {
                    &&& final(self).active@ == old(self).active@.update(index as int, completed_action::<P>())
                    &&& final(self).queued == old(self).queued
                    &&& final(self).dirty_actions == old(self).dirty_actions + 1
                } else {
                    &&& final(self).active@ == old(self).active@.update(index as int, old(self).queued@[a.next as int])
                    &&& final(self).queued@ == old(self).queued@.update(a.next as int, a)
                    &&& final(self).dirty_actions == old(self).dirty_actions
                }
            }),
    {
        let action = self.active[index];
        if action.state != ActionState::Finalized {
            return;
        }
        if action.next == u32::MAX {
            self.active.set(index, Action::completed());
            self.dirty_actions = self.dirty_actions + 1;
        } else {
            let next_index = action.next as usize;
            let queued = self.queued[next_index];
            self.active.set(index, queued);
            self.queued.set(next_index, action);
        }
    }

    /// Whether enough actions completed to clean the active list.
    pub fn needs_clean(&self) -> (b: bool)
        ensures
            b == (self.dirty_actions > 16),
    {
        self.dirty_actions > 16
    }

    /// Removes the completed actions from the active list.
    pub fn clean(&mut self)
        requires
            old(self).wf(),
        ensures
            final(self).wf(),
            final(self).active@ == old(self).active@.filter(|a: Action<P>| !(a.ty is Completed)),
            final(self).queued == old(self).queued,
            final(self).cancelled == old(self).cancelled,
            final(self).dirty_actions == 0,
    {
        let ghost pred = |a: Action<P>| !(a.ty is Completed);
        let mut kept: Vec<Action<P>> = Vec::new();
        let mut i: usize = 0;
        proof {
            assert(self.active@.subrange(0, 0).filter(pred) =~= Seq::<Action<P>>::empty()) by {
                reveal_with_fuel(Seq::filter, 1);
            }
        }
        while i < self.active.len()
            invariant
                old(self).wf(),
                self.active == old(self).active,
                i <= self.active@.len(),
                kept@ == self.active@.subrange(0, i as int).filter(pred),
                forall|j: int| 0 <= j < kept@.len() ==> link_ok(#[trigger] kept@[j], old(self).queued@.len() as int),
                pred == (|a: Action<P>| !(a.ty is Completed)),
            decreases self.active@.len() - i,
        {
            let a = self.active[i];
            proof {
                assert(self.active@.subrange(0, i + 1).drop_last() =~= self.active@.subrange(0, i as int));
                assert(self.active@.subrange(0, i + 1).filter(pred) == if !(a.ty is Completed) {
                    self.active@.subrange(0, i as int).filter(pred).push(a)
                } else {
                    self.active@.subrange(0, i as int).filter(pred)
                }) by {
                    reveal_with_fuel(Seq::filter, 1);
                }
                assert(link_ok(self.active@[i as int], old(self).queued@.len() as int));
            }
            if !a.is_completed() {
                kept.push(a);
            }
            i = i + 1;
        }
        proof {
            assert(self.active@.subrange(0, self.active@.len() as int) =~= self.active@);
        }
        self.active = kept;
        self.dirty_actions = 0;
    }

    /// Replaces by completed actions the queued action at `queued_index` and
    /// every queued action that it leads to.
    fn cancel_queued_actions(&mut self, queued_index: usize)
        requires
            old(self).wf(),
            queued_index < old(self).queued@.len(),
        ensures
            final(self).wf(),
            final(self).queued@.len() == old(self).queued@.len(),
            forall|k: int|
                0 <= k < old(self).queued@.len() ==> #[trigger] final(self).queued@[k] == if queued_after(
                    old(self).queued@,
                    queued_index as int,
                    k,
                ) {
                    completed_action::<P>()
                } else {
                    old(self).queued@[k]
                },
            final(self).active == old(self).active,
            final(self).cancelled == old(self).cancelled,
            final(self).dirty_actions == old(self).dirty_actions,
        decreases linked_count(old(self).queued@),
    {
        let ghost q = self.queued@;
        let ghost i = queued_index as int;
        let next_queued = self.queued[queued_index].next;
        self.queued.set(queued_index, Action::completed());
        if next_queued != u32::MAX {
            proof {
                lemma_linked_count_update(q, i, completed_action::<P>());
            }
            self.cancel_queued_actions(next_queued as usize);
            proof {
                let q1 = q.update(i, completed_action::<P>());
                assert forall|k: int| 0 <= k < q.len() implies #[trigger] self.queued@[k] == if queued_after(q, i, k) {
                    completed_action::<P>()
                } else {
                    q[k]
                } by {
                    lemma_cut_reach(q, i, k);
                    assert(self.queued@[k] == if queued_after(q1, next_queued as int, k) {
                        completed_action::<P>()
                    } else {
                        q1[k]
                    });
                }
            }
        } else {
            proof {
                assert forall|k: int| 0 <= k < q.len() implies #[trigger] self.queued@[k] == if queued_after(q, i, k) {
                    completed_action::<P>()
                } else {
                    q[k]
                } by {
                    lemma_unlinked_reach(q, i, k);
                }
            }
        }
    }
}

/// What one step of moving a pawn does.
#[derive(Debug, Clone, Copy, PartialEq, Eq, Structural)]
pub struct MovePawnStep {
    /// The state of the action after the step.
    pub state: ActionState,
    /// The pawn starts its walk animation.
    pub walk: bool,
    /// The pawn goes back to its idle animation.
    pub idle: bool,
}

/// One step of moving a pawn. `arrived` tells whether it reached its
/// target this frame. The pawn walks, and once it arrives stops and goes idle.
pub fn move_pawn_step(state: ActionState, arrived: bool) -> (step: MovePawnStep)
    ensures
        step == match state {
            ActionState::Initial => MovePawnStep { state: ActionState::Running, walk: true, idle: false },
            ActionState::Running => MovePawnStep {
                state: if arrived { ActionState::Finalizing } else { ActionState::Running },
                walk: false,
                idle: false,
            },
            ActionState::Finalizing => MovePawnStep { state: ActionState::Finalized, walk: false, idle: true },
            ActionState::Finalized => MovePawnStep { state: ActionState::Finalized, walk: false, idle: false },
        },
{
    match state {
        ActionState::Initial => MovePawnStep { state: ActionState::Running, walk: true, idle: false },
        ActionState::Running => MovePawnStep {
            state: if arrived { ActionState::Finalizing } else { ActionState::Running },
            walk: false,
            idle: false,
        },
        ActionState::Finalizing => MovePawnStep { state: ActionState::Finalized, walk: false, idle: true },
        ActionState::Finalized => MovePawnStep { state: ActionState::Finalized, walk: false, idle: false },
    }
}

/// What one step of cutting a tree does.
#[derive(Debug, Clone, Copy, PartialEq, Eq, Structural)]
pub struct CutStep {
    /// The state of the action after the step.
    pub state: ActionState,
    /// The pawn swings its axe and the tree shakes, from the first frame.
    pub axe: bool,
    /// The cutting timer starts again.
    pub restart_timer: bool,
    /// The pawn idles and the tree becomes a stump, with wood around it.
    pub fell: bool,
}

/// One step of a pawn cutting `tree`, while both exist (`exists`).
/// `timer_over` tells whether the cutting timer ran out. A tree that is
/// taken or felled ends the action; otherwise the pawn takes the tree and
/// takes one point of life from it each time the timer runs out, and once
/// it falls the tree becomes a free stump.
pub fn cut_tree_step(state: ActionState, exists: bool, tree: &mut TreeData, timer_over: bool) -> (step: CutStep)
    ensures
        final(tree).life <= old(tree).life,
        !exists ==> *final(tree) == *old(tree) && step == (CutStep {
            state: ActionState::Finalized,
            axe: false,
            restart_timer: false,
            fell: false,
        }),
        exists && state == ActionState::Initial ==> if old(tree).being_harvested || old(tree).life == 0 {
            *final(tree) == *old(tree) && step == (CutStep {
                state: ActionState::Finalizing,
                axe: false,
                restart_timer: false,
                fell: false,
            })
        } else {
            *final(tree) == (TreeData { being_harvested: true, ..*old(tree) }) && step == (CutStep {
                state: ActionState::Running,
                axe: true,
                restart_timer: true,
                fell: false,
            })
        },
        exists && state == ActionState::Running ==> {
            let cut = old(tree).life > 0 && timer_over;
            &&& *final(tree) == (if cut { TreeData { life: (old(tree).life - 1) as u8, ..*old(tree) } } else { *old(tree) })
            &&& step == (CutStep {
                state: if final(tree).life == 0 { ActionState::Finalizing } else { ActionState::Running },
                axe: false,
                restart_timer: cut,
                fell: false,
            })
        },
        exists && state == ActionState::Finalizing ==> *final(tree) == (TreeData { being_harvested: false, ..*old(tree) })
            && step == (CutStep { state: ActionState::Finalized, axe: false, restart_timer: false, fell: true }),
        exists && state == ActionState::Finalized ==> *final(tree) == *old(tree) && step == (CutStep {
            state: ActionState::Finalized,
            axe: false,
            restart_timer: false,
            fell: false,
        }),
{
    let quiet = CutStep { state: ActionState::Finalized, axe: false, restart_timer: false, fell: false };
    if !exists {
        return quiet;
    }
    match state {
        ActionState::Initial => {
            if tree.being_harvested || tree.life == 0 {
                return CutStep { state: ActionState::Finalizing, ..quiet };
            }
            tree.being_harvested = true;
            CutStep { state: ActionState::Running, axe: true, restart_timer: true, fell: false }
        },
        ActionState::Running => {
            let cut = tree.life > 0 && timer_over;
            if cut {
                tree.life = tree.life - 1;
            }
            let next = if tree.life == 0 { ActionState::Finalizing } else { ActionState::Running };
            CutStep { state: next, axe: false, restart_timer: cut, fell: false }
        },
        ActionState::Finalizing => {
            tree.being_harvested = false;
            CutStep { fell: true, ..quiet }
        },
        ActionState::Finalized => quiet,
    }
}

} // verus!
