//! Actions that run over several frames and replace the actions they conflict with.
use vstd::prelude::*;
use crate::world::{ResourceType, WorldObject, WorldObjectType};

verus! {

/// What an action does. `P` is the type of a world position.
#[derive(Debug, Clone, Copy)]
pub enum ActionType<P> {
    Nop,
    MoveActor { actor: WorldObject, target_position: P },
    CutTree { pawn_id: u32, tree_id: u32 },
    SpawnResource { spawn_id: u32, resource_type: ResourceType },
    GrabResource { pawn_id: u32, resource_id: u32 },
    StartMining { pawn_id: u32, structure_id: u32 },
}

/// Where an action is in its run; a running action records its step.
#[derive(Debug, Clone, Copy, PartialEq, Eq, Structural)]
pub enum ActionState {
    Initial,
    Done,
    Running(u8),
}

/// An action and where it is in its run.
#[derive(Debug, Clone, Copy)]
pub struct Action<P> {
    pub ty: ActionType<P>,
    pub state: ActionState,
}

/// The action that does nothing and is over.
pub open spec fn nop_action<P>() -> Action<P> {
    Action { ty: ActionType::Nop, state: ActionState::Done }
}

/// Whether the old action `a` cannot run at the same time as the new action `b`:
/// both give orders to the same unit (a unit is its id and its type; cutting
/// trees and grabbing resources are done by pawns).
pub open spec fn incompatible<P>(a: Action<P>, b: Action<P>) -> bool {
    match (a.ty, b.ty) {
        (ActionType::MoveActor { actor: actor1, .. }, ActionType::MoveActor { actor: actor2, .. }) => actor1.id
            == actor2.id && actor1.ty == actor2.ty,
        (ActionType::MoveActor { actor, .. }, ActionType::CutTree { pawn_id, .. }) => pawn_id == actor.id
            && actor.ty == WorldObjectType::Pawn,
        (ActionType::CutTree { pawn_id, .. }, ActionType::MoveActor { actor, .. }) => pawn_id == actor.id
            && actor.ty == WorldObjectType::Pawn,
        (ActionType::CutTree { pawn_id: pid1, .. }, ActionType::GrabResource { pawn_id: pid2, .. }) => pid1 == pid2,
        (ActionType::GrabResource { pawn_id: pid1, .. }, ActionType::MoveActor { actor: actor1, .. }) => actor1.id == pid1
            && actor1.ty == WorldObjectType::Pawn,
        (ActionType::GrabResource { pawn_id: pid1, .. }, ActionType::CutTree { pawn_id: pid2, .. }) => pid1 == pid2,
        _ => false,
    }
}

impl<P: Copy> Action<P> {
    /// A new action of type `ty`, not started yet.
    pub fn from_type(ty: ActionType<P>) -> (a: Self)
        ensures
            a == (Action { ty, state: ActionState::Initial }),
    {
        Action { ty, state: ActionState::Initial }
    }

    /// The action that does nothing and is over.
    pub fn nop() -> (a: Self)
        ensures
            a == nop_action::<P>(),
    {
        Action { ty: ActionType::Nop, state: ActionState::Done }
    }

    /// Whether the action is over.
    pub fn is_done(&self) -> (b: bool)
        ensures
            b == (self.state == ActionState::Done),
    {
        match self.state {
            ActionState::Done => true,
            _ => false,
        }
    }

    /// Whether this old action cannot run at the same time as the new action `other`.
    pub fn is_incompatible(&self, other: Action<P>) -> (b: bool)
        ensures
            b == incompatible(*self, other),
    {
        match (self.ty, other.ty) {
            (ActionType::MoveActor { actor: actor1, .. }, ActionType::MoveActor { actor: actor2, .. }) => {
                actor1.id == actor2.id && actor1.ty == actor2.ty
            },
            (ActionType::MoveActor { actor, .. }, ActionType::CutTree { pawn_id, .. }) => {
                pawn_id == actor.id && actor.ty == WorldObjectType::Pawn
            },
            (ActionType::CutTree { pawn_id, .. }, ActionType::MoveActor { actor, .. }) => {
                pawn_id == actor.id && actor.ty == WorldObjectType::Pawn
            },
            (ActionType::CutTree { pawn_id: pid1, .. }, ActionType::GrabResource { pawn_id: pid2, .. }) => {
                pid1 == pid2
            },
            (ActionType::GrabResource { pawn_id: pid1, .. }, ActionType::MoveActor { actor: actor1, .. }) => {
                actor1.id == pid1 && actor1.ty == WorldObjectType::Pawn
            },
            (ActionType::GrabResource { pawn_id: pid1, .. }, ActionType::CutTree { pawn_id: pid2, .. }) => {
                pid1 == pid2
            },
            _ => false,
        }
    }

    /// The step of a running action, or 255 when it is not running.
    pub fn running_value(&self) -> (v: u8)
        ensures
            v == (match self.state {
                ActionState::Running(value) => value,
                _ => 255u8,
            }),
    {
        match self.state {
            ActionState::Running(value) => value,
            _ => 255,
        }
    }
}

/// The action that does nothing conflicts with no action, either way.
pub proof fn lemma_nop_compatible<P>(a: Action<P>)
    ensures
        !incompatible(nop_action::<P>(), a),
        !incompatible(a, nop_action::<P>()),
{
}

/// Two moves conflict whichever came first, and exactly when they order the
/// same unit: same id and same type.
pub proof fn lemma_moves_conflict_both_ways<P>(a: Action<P>, b: Action<P>)
    requires
        a.ty is MoveActor,
        b.ty is MoveActor,
    ensures
        incompatible(a, b) == incompatible(b, a),
        incompatible(a, b) == (a.ty->actor == b.ty->actor),
{
}

/// A pawn picking up a resource stops doing so when it is ordered to move:
/// an old grab of pawn `pawn_id` conflicts with a new move exactly when the
/// move orders that same pawn, and never with a move of a unit that is not a
/// pawn. A move never conflicts with a grab that comes after it.
pub proof fn lemma_grab_yields_to_move_of_its_pawn<P>(
    pawn_id: u32,
    resource_id: u32,
    actor: WorldObject,
    target_position: P,
    s1: ActionState,
    s2: ActionState,
)
    ensures
        incompatible(
            Action { ty: ActionType::GrabResource { pawn_id, resource_id }, state: s1 },
            Action { ty: ActionType::MoveActor { actor, target_position }, state: s2 },
        ) == (actor.id == pawn_id && actor.ty == WorldObjectType::Pawn),
        actor.ty != WorldObjectType::Pawn ==> !incompatible(
            Action { ty: ActionType::GrabResource { pawn_id, resource_id }, state: s1 },
            Action { ty: ActionType::MoveActor { actor, target_position }, state: s2 },
        ),
        !incompatible(
            Action { ty: ActionType::MoveActor { actor, target_position }, state: s2 },
            Action { ty: ActionType::GrabResource { pawn_id, resource_id }, state: s1 },
        ),
{
}

/// A pawn cutting a tree stops when it is ordered to move, whichever order
/// came first: a cut by pawn `pawn_id` and a move conflict exactly when the
/// move orders that same pawn.
pub proof fn lemma_cut_and_move_of_one_pawn<P>(
    pawn_id: u32,
    tree_id: u32,
    actor: WorldObject,
    target_position: P,
    s1: ActionState,
    s2: ActionState,
)
    ensures
        incompatible(
            Action { ty: ActionType::CutTree { pawn_id, tree_id }, state: s1 },
            Action { ty: ActionType::MoveActor { actor, target_position }, state: s2 },
        ) == (actor.id == pawn_id && actor.ty == WorldObjectType::Pawn),
        incompatible(
            Action { ty: ActionType::MoveActor { actor, target_position }, state: s2 },
            Action { ty: ActionType::CutTree { pawn_id, tree_id }, state: s1 },
        ) == (actor.id == pawn_id && actor.ty == WorldObjectType::Pawn),
{
}

/// Cutting a tree and grabbing a resource by the same pawn replace each
/// other, whichever came first; by different pawns they do not conflict.
pub proof fn lemma_cut_and_grab_of_one_pawn<P>(
    cutter: u32,
    tree_id: u32,
    grabber: u32,
    resource_id: u32,
    s1: ActionState,
    s2: ActionState,
)
    ensures
        incompatible(
            Action::<P> { ty: ActionType::CutTree { pawn_id: cutter, tree_id }, state: s1 },
            Action::<P> { ty: ActionType::GrabResource { pawn_id: grabber, resource_id }, state: s2 },
        ) == (cutter == grabber),
        incompatible(
            Action::<P> { ty: ActionType::GrabResource { pawn_id: grabber, resource_id }, state: s2 },
            Action::<P> { ty: ActionType::CutTree { pawn_id: cutter, tree_id }, state: s1 },
        ) == (cutter == grabber),
{
}

/// New actions, gathered until the next update.
#[derive(Debug)]
pub struct ActionsBuffer<P> {
    pub new: Vec<Action<P>>,
}

impl<P: Copy> ActionsBuffer<P> {
    /// No new action.
    pub fn new() -> (b: Self)
        ensures
            b.new@.len() == 0,
    {
        ActionsBuffer { new: Vec::new() }
    }

    /// Adds a new action.
    pub fn push(&mut self, action: Action<P>)
        ensures
            final(self).new@ == old(self).new@.push(action),
    {
        self.new.push(action);
    }

    /// Adds an action and the action that follows it.
    pub fn push2(&mut self, first: Action<P>, second: Action<P>)
        ensures
            final(self).new@ == old(self).new@.push(first).push(second),
    {
        self.new.push(first);
        self.new.push(second);
    }
}

/// Runs the active actions; conflicting actions are replaced and cancelled.
#[derive(Debug)]
pub struct ActionsManager<P> {
    pub active: Vec<Action<P>>,
    pub to_cancel: Vec<Action<P>>,
    pub completed_actions: u32,
}

/// The active actions after `new` replaced those it conflicts with.
pub open spec fn filtered<P>(active: Seq<Action<P>>, new: Action<P>) -> Seq<Action<P>> {
    Seq::new(active.len(), |i: int| if incompatible(active[i], new) { nop_action::<P>() } else { active[i] })
}

/// The active actions that conflict with `new`.
pub open spec fn conflicts<P>(active: Seq<Action<P>>, new: Action<P>) -> Seq<Action<P>> {
    active.filter(|a: Action<P>| incompatible(a, new))
}

/// The active actions, the actions waiting for their cancel step and the
/// count of completed actions.
pub struct ManagerState<P> {
    pub active: Seq<Action<P>>,
    pub to_cancel: Seq<Action<P>>,
    pub completed: int,
}

/// The manager after the first `n` of `new` were each pushed in turn,
/// replacing the actions they conflict with.
pub open spec fn after_buffer<P>(
    active: Seq<Action<P>>,
    to_cancel: Seq<Action<P>>,
    completed: int,
    new: Seq<Action<P>>,
    n: int,
) -> ManagerState<P>
    decreases n,
{
    if n <= 0 {
        ManagerState { active, to_cancel, completed }
    } else {
        let r = after_buffer(active, to_cancel, completed, new, n - 1);
        let a = new[n - 1];
        ManagerState {
            active: filtered(r.active, a).push(a),
            to_cancel: r.to_cancel + conflicts(r.active, a),
            completed: r.completed + conflicts(r.active, a).len(),
        }
    }
}

proof fn lemma_after_buffer_grows<P>(
    active: Seq<Action<P>>,
    to_cancel: Seq<Action<P>>,
    completed: int,
    new: Seq<Action<P>>,
    n: int,
    m: int,
)
    requires
        0 <= n <= m,
    ensures
        after_buffer(active, to_cancel, completed, new, n).completed <= after_buffer(
            active,
            to_cancel,
            completed,
            new,
            m,
        ).completed,
    decreases m - n,
{
    if n < m {
        lemma_after_buffer_grows(active, to_cancel, completed, new, n, m - 1);
    }
}

proof fn lemma_prefix_filter_le<A>(s: Seq<A>, pred: spec_fn(A) -> bool, i: int, j: int)
    requires
        0 <= i <= j <= s.len(),
    ensures
        s.subrange(0, i).filter(pred).len() <= s.subrange(0, j).filter(pred).len(),
    decreases j - i,
{
    if i < j {
        lemma_prefix_filter_le(s, pred, i, j - 1);
        assert(s.subrange(0, j).drop_last() =~= s.subrange(0, j - 1));
        reveal_with_fuel(Seq::filter, 1);
    }
}

impl<P: Copy> ActionsManager<P> {
    /// No action.
    pub fn new() -> (m: Self)
        ensures
            m.active@.len() == 0,
            m.to_cancel@.len() == 0,
            m.completed_actions == 0,
    {
        ActionsManager { active: Vec::new(), to_cancel: Vec::new(), completed_actions: 0 }
    }

    /// Replaces by no-ops the active actions that `filter_action` conflicts
    /// with, and keeps them for their cancel step.
    pub fn filter_incompatible_actions(&mut self, filter_action: Action<P>)
        requires
            old(self).completed_actions + conflicts(old(self).active@, filter_action).len() <= u32::MAX,
        ensures
            final(self).active@ == filtered(old(self).active@, filter_action),
            final(self).to_cancel@ == old(self).to_cancel@ + old(self).active@.filter(
                |a: Action<P>| incompatible(a, filter_action),
            ),
            final(self).completed_actions == old(self).completed_actions + old(self).active@.filter(
                |a: Action<P>| incompatible(a, filter_action),
            ).len(),
    {
        let ghost old_active = self.active@;
        let ghost pred = |a: Action<P>| incompatible(a, filter_action);
        let mut i: usize = 0;
        proof {
            assert(old_active.subrange(0, 0).filter(pred) =~= Seq::<Action<P>>::empty()) by {
                reveal_with_fuel(Seq::filter, 1);
            }
        }
        while i < self.active.len()
            invariant
                i <= self.active@.len(),
                self.active@.len() == old_active.len(),
                old(self).completed_actions + old_active.filter(pred).len() <= u32::MAX,
                forall|j: int| i <= j < old_active.len() ==> #[trigger] self.active@[j] == old_active[j],
                forall|j: int| 0 <= j < i ==> #[trigger] self.active@[j] == filtered(old_active, filter_action)[j],
                self.to_cancel@ == old(self).to_cancel@ + old_active.subrange(0, i as int).filter(pred),
                self.completed_actions == old(self).completed_actions + old_active.subrange(0, i as int).filter(pred).len(),
                pred == (|a: Action<P>| incompatible(a, filter_action)),
            decreases old_active.len() - i,
        {
            let a = self.active[i];
            proof {
                assert(old_active.subrange(0, i + 1).drop_last() =~= old_active.subrange(0, i as int));
                assert(old_active.subrange(0, i + 1).filter(pred) == if incompatible(a, filter_action) {
                    old_active.subrange(0, i as int).filter(pred).push(a)
                } else {
                    old_active.subrange(0, i as int).filter(pred)
                }) by {
                    reveal_with_fuel(Seq::filter, 1);
                }
                lemma_prefix_filter_le(old_active, pred, i + 1, old_active.len() as int);
                assert(old_active.subrange(0, old_active.len() as int) =~= old_active);
            }
            if a.is_incompatible(filter_action) {
                self.completed_actions = self.completed_actions + 1;
                self.to_cancel.push(a);
                self.active.set(i, Action::nop());
            }
            i = i + 1;
        }
        proof {
            assert(old_active.subrange(0, old_active.len() as int) =~= old_active);
            assert(self.active@ =~= filtered(old_active, filter_action));
        }
    }

    /// Starts a new action after replacing the active actions it conflicts with.
    /// Afterwards no older active action conflicts with it.
    pub fn push_filtered(&mut self, action: Action<P>)
        requires
            old(self).completed_actions + conflicts(old(self).active@, action).len() <= u32::MAX,
        ensures
            final(self).active@ == filtered(old(self).active@, action).push(action),
            final(self).to_cancel@ == old(self).to_cancel@ + old(self).active@.filter(
                |a: Action<P>| incompatible(a, action),
            ),
            final(self).completed_actions == old(self).completed_actions + old(self).active@.filter(
                |a: Action<P>| incompatible(a, action),
            ).len(),
            forall|i: int| 0 <= i < old(self).active@.len() ==> !incompatible(#[trigger] final(self).active@[i], action),
    {
        self.filter_incompatible_actions(action);
        self.active.push(action);
    }

    /// Takes the new actions of the frame, each in turn replacing the active
    /// actions it conflicts with (earlier new actions included), which are
    /// kept for their cancel step and counted as completed.
    pub fn update_actions_from_buffer(&mut self, buffer: &mut ActionsBuffer<P>)
        requires
            after_buffer(
                old(self).active@,
                old(self).to_cancel@,
                old(self).completed_actions as int,
                old(buffer).new@,
                old(buffer).new@.len() as int,
            ).completed <= u32::MAX,
        ensures
            final(buffer).new@.len() == 0,
            ({
                let r = after_buffer(
                    old(self).active@,
                    old(self).to_cancel@,
                    old(self).completed_actions as int,
                    old(buffer).new@,
                    old(buffer).new@.len() as int,
                );
                &&& final(self).active@ == r.active
                &&& final(self).to_cancel@ == r.to_cancel
                &&& final(self).completed_actions == r.completed
            }),
    {
        let ghost a0 = self.active@;
        let ghost c0 = self.to_cancel@;
        let ghost n0 = self.completed_actions as int;
        let ghost total = buffer.new@.len() as int;
        let mut action_index: usize = 0;
        while action_index < buffer.new.len()
            invariant
                buffer.new@ == old(buffer).new@,
                total == buffer.new@.len(),
                action_index <= total,
                a0 == old(self).active@,
                c0 == old(self).to_cancel@,
                n0 == old(self).completed_actions as int,
                after_buffer(a0, c0, n0, buffer.new@, total).completed <= u32::MAX,
                ({
                    let r = after_buffer(a0, c0, n0, buffer.new@, action_index as int);
                    &&& self.active@ == r.active
                    &&& self.to_cancel@ == r.to_cancel
                    &&& self.completed_actions == r.completed
                }),
            decreases total - action_index,
        {
            let action = buffer.new[action_index];
            proof {
                lemma_after_buffer_grows(a0, c0, n0, buffer.new@, action_index + 1, total);
            }
            self.push_filtered(action);
            action_index = action_index + 1;
        }
        buffer.new.clear();
    }

    /// Puts back an active action after it ran for this frame; an action that
    /// is over is counted and replaced by a no-op.
    pub fn finish_processing(&mut self, index: usize, processed: Action<P>)
        requires
            index < old(self).active@.len(),
            old(self).completed_actions < u32::MAX,
        ensures
            final(self).to_cancel == old(self).to_cancel,
            processed.state == ActionState::Done ==> final(self).active@ == old(self).active@.update(index as int, nop_action::<P>())
                && final(self).completed_actions == old(self).completed_actions + 1,
            processed.state != ActionState::Done ==> final(self).active@ == old(self).active@.update(index as int, processed)
                && final(self).completed_actions == old(self).completed_actions,
    {
        if processed.is_done() {
            self.completed_actions = self.completed_actions + 1;
            self.active.set(index, Action::nop());
        } else {
            self.active.set(index, processed);
        }
    }

    /// Hands out the actions waiting for their cancel step, and forgets them.
    pub fn take_cancelled(&mut self) -> (c: Vec<Action<P>>)
        ensures
            c@ == old(self).to_cancel@,
            final(self).to_cancel@.len() == 0,
            final(self).active == old(self).active,
            final(self).completed_actions == old(self).completed_actions,
    {
        let mut c: Vec<Action<P>> = Vec::new();
        std::mem::swap(&mut c, &mut self.to_cancel);
        c
    }

    /// Once more than 16 actions are over, removes the finished actions.
    /// The count is kept as it is.
    pub fn clean_if_needed(&mut self)
        ensures
            final(self).to_cancel == old(self).to_cancel,
            final(self).completed_actions == old(self).completed_actions,
            final(self).active@ == (if old(self).completed_actions > 16 {
                old(self).active@.filter(|a: Action<P>| a.state != ActionState::Done)
            } else {
                old(self).active@
            }),
    {
        if self.completed_actions <= 16 {
            return;
        }
        let ghost pred = |a: Action<P>| a.state != ActionState::Done;
        let mut kept: Vec<Action<P>> = Vec::new();
        let mut i: usize = 0;
        proof {
            assert(self.active@.subrange(0, 0).filter(pred) =~= Seq::<Action<P>>::empty()) by {
                reveal_with_fuel(Seq::filter, 1);
            }
        }
        while i < self.active.len()
            invariant
                self.active == old(self).active,
                i <= self.active@.len(),
                kept@ == self.active@.subrange(0, i as int).filter(pred),
                pred == (|a: Action<P>| a.state != ActionState::Done),
            decreases self.active@.len() - i,
        {
            let a = self.active[i];
            proof {
                assert(self.active@.subrange(0, i + 1).drop_last() =~= self.active@.subrange(0, i as int));
                assert(self.active@.subrange(0, i + 1).filter(pred) == if a.state != ActionState::Done {
                    self.active@.subrange(0, i as int).filter(pred).push(a)
                } else {
                    self.active@.subrange(0, i as int).filter(pred)
                }) by {
                    reveal_with_fuel(Seq::filter, 1);
                }
            }
            if !a.is_done() {
                kept.push(a);
            }
            i = i + 1;
        }
        proof {
            assert(self.active@.subrange(0, self.active@.len() as int) =~= self.active@);
        }
        self.active = kept;
    }
}

} // verus!
