//! The steps of the actions that work at a tree or in a mine. Movement and
//! timing are measured by the caller, who hands over whether the pawn
//! arrived and whether the timer ran out; each step says what changes.
use vstd::prelude::*;
use super::base::ActionState;
use crate::world::{TreeData, WorldObject, WorldObjectType};
use crate::behaviour::structures::StructureGoldMineData;
use crate::behaviour::pawn::{can_mine, MineSprite};

verus! {

/// Walking to the tree.
pub const MOVE_TO_TREE: u8 = 0;
/// Raising the axe.
pub const BEGIN_CUT_TREE: u8 = 1;
/// Cutting.
pub const CUT_TREE: u8 = 2;
/// The tree fell: wood drops around it.
pub const SPAWN_WOOD: u8 = 3;

/// What one step of the tree cutting action does.
#[derive(Debug, Clone, Copy, PartialEq, Eq, Structural)]
pub struct CutTreeStep {
    /// The state of the action after the step.
    pub state: ActionState,
    /// The pawn starts its walk animation.
    pub walk: bool,
    /// The pawn goes back to its idle animation.
    pub idle: bool,
    /// The pawn swings its axe and the tree shakes, from the first frame.
    pub axe: bool,
    /// The cutting timer starts again.
    pub restart_timer: bool,
    /// The tree becomes a stump, with wood around it.
    pub fell: bool,
}

/// A step that changes nothing but the state.
pub open spec fn quiet_cut(state: ActionState) -> CutTreeStep {
    CutTreeStep { state, walk: false, idle: false, axe: false, restart_timer: false, fell: false }
}

/// Walking to the tree: stop if it is taken or felled, start cutting on arrival.
pub open spec fn cut_move_step(tree: TreeData, arrived: bool) -> CutTreeStep {
    if tree.being_harvested || tree.life == 0 {
        CutTreeStep { idle: true, ..quiet_cut(ActionState::Done) }
    } else if arrived {
        quiet_cut(ActionState::Running(BEGIN_CUT_TREE))
    } else {
        quiet_cut(ActionState::Running(MOVE_TO_TREE))
    }
}

/// What a step of the tree cutting action does; see `cut_tree_action_step`.
pub open spec fn cut_tree_next(state: ActionState, tree: TreeData, arrived: bool, timer_over: bool) -> CutTreeStep {
    match state {
        ActionState::Initial => CutTreeStep { walk: true, ..cut_move_step(tree, arrived) },
        ActionState::Done => quiet_cut(state),
        ActionState::Running(step) => if step == MOVE_TO_TREE {
            cut_move_step(tree, arrived)
        } else if step == BEGIN_CUT_TREE {
            CutTreeStep { axe: true, restart_timer: true, ..quiet_cut(ActionState::Running(CUT_TREE)) }
        } else if step == CUT_TREE {
            let cut = tree.life > 0 && timer_over;
            let life = if cut { tree.life - 1 } else { tree.life as int };
            CutTreeStep {
                restart_timer: cut,
                ..quiet_cut(if life == 0 { ActionState::Running(SPAWN_WOOD) } else { state })
            }
        } else if step == SPAWN_WOOD {
            CutTreeStep { idle: true, fell: true, ..quiet_cut(ActionState::Done) }
        } else {
            quiet_cut(state)
        },
    }
}

/// The cutting action walks the pawn to the tree and raises the axe only
/// once the pawn has arrived and only if the tree still stands and nobody
/// else cuts it; the action ends, the pawn idling, exactly when the tree is
/// taken or felled. Only the first step starts the walk.
pub proof fn lemma_cut_walks_until_arrived(first: bool, tree: TreeData, arrived: bool, timer_over: bool)
    ensures
        ({
            let c = cut_tree_next(
                if first { ActionState::Initial } else { ActionState::Running(MOVE_TO_TREE) },
                tree,
                arrived,
                timer_over,
            );
            let free = !tree.being_harvested && tree.life > 0;
            &&& c.state == (if !free {
                ActionState::Done
            } else if arrived {
                ActionState::Running(BEGIN_CUT_TREE)
            } else {
                ActionState::Running(MOVE_TO_TREE)
            })
            &&& c.idle == !free
            &&& c.walk == first
            &&& !c.axe && !c.restart_timer && !c.fell
        }),
{
}

/// One step of the action of a pawn cutting `tree`. `arrived` tells whether
/// the pawn reached the tree this frame, `timer_over` whether the cutting
/// timer ran out. The pawn walks to a tree nobody is cutting and that still
/// stands, takes it, and takes one point of life from it each time the timer
/// runs out; once the tree falls it becomes a stump, free again, with wood
/// around it, and the action is over.
pub fn cut_tree_action_step(state: ActionState, tree: &mut TreeData, arrived: bool, timer_over: bool) -> (step:
    CutTreeStep)
    ensures
        step == cut_tree_next(state, *old(tree), arrived, timer_over),
        final(tree).life <= old(tree).life,
        *final(tree) == (if state == ActionState::Running(BEGIN_CUT_TREE) {
            TreeData { being_harvested: true, ..*old(tree) }
        } else if state == ActionState::Running(CUT_TREE) && old(tree).life > 0 && timer_over {
            TreeData { life: (old(tree).life - 1) as u8, ..*old(tree) }
        } else if state == ActionState::Running(SPAWN_WOOD) {
            TreeData { being_harvested: false, ..*old(tree) }
        } else {
            *old(tree)
        }),
{
    let quiet = CutTreeStep { state, walk: false, idle: false, axe: false, restart_timer: false, fell: false };
    match state {
        ActionState::Initial => {
            let step = cut_move(*tree, arrived);
            CutTreeStep { walk: true, ..step }
        },
        ActionState::Done => quiet,
        ActionState::Running(s) => {
            if s == MOVE_TO_TREE {
                cut_move(*tree, arrived)
            } else if s == BEGIN_CUT_TREE {
                tree.being_harvested = true;
                CutTreeStep { state: ActionState::Running(CUT_TREE), axe: true, restart_timer: true, ..quiet }
            } else if s == CUT_TREE {
                let cut = tree.life > 0 && timer_over;
                if cut {
                    tree.life = tree.life - 1;
                }
                let next = if tree.life == 0 { ActionState::Running(SPAWN_WOOD) } else { state };
                CutTreeStep { state: next, restart_timer: cut, ..quiet }
            } else if s == SPAWN_WOOD {
                tree.being_harvested = false;
                CutTreeStep { state: ActionState::Done, idle: true, fell: true, ..quiet }
            } else {
                quiet
            }
        },
    }
}

fn cut_move(tree: TreeData, arrived: bool) -> (step: CutTreeStep)
    ensures
        step == cut_move_step(tree, arrived),
{
    let blocked = tree.being_harvested || tree.life == 0;
    let state = if blocked {
        ActionState::Done
    } else if arrived {
        ActionState::Running(BEGIN_CUT_TREE)
    } else {
        ActionState::Running(MOVE_TO_TREE)
    };
    CutTreeStep { state, walk: false, idle: blocked, axe: false, restart_timer: false, fell: false }
}

/// The tree cutting action is cancelled: the tree is free again.
pub fn cut_tree_action_cancel(tree: &mut TreeData)
    ensures
        *final(tree) == (TreeData { being_harvested: false, ..*old(tree) }),
{
    tree.being_harvested = false;
}

/// Walking to the mine.
pub const MOVE_TO_MINE: u8 = 0;
/// Entering the mine.
pub const ENTER_MINE: u8 = 1;
/// Mining, hidden inside the mine.
pub const MINING: u8 = 2;
/// Shutting the empty mine.
pub const DISABLE_MINE: u8 = 3;

/// What one step of the mining action does.
#[derive(Debug, Clone, Copy, PartialEq, Eq, Structural)]
pub struct MiningStep {
    /// The state of the action after the step.
    pub state: ActionState,
    /// The pawn starts its walk animation.
    pub walk: bool,
    /// The pawn goes back to its idle animation.
    pub idle: bool,
    /// The pawn disappears into the mine, which it is now assigned to.
    pub enter: bool,
    /// The drop timer of the mine starts again.
    pub restart_timer: bool,
    /// A gold nugget drops next to the mine.
    pub spawn_gold: bool,
    /// The pawns that were mining come back out and are free again.
    pub respawn_pawns: bool,
    /// The new sprite of the mine, if it changes.
    pub mine_sprite: Option<MineSprite>,
}

/// A step that changes nothing but the state.
pub open spec fn quiet_mining(state: ActionState) -> MiningStep {
    MiningStep {
        state,
        walk: false,
        idle: false,
        enter: false,
        restart_timer: false,
        spawn_gold: false,
        respawn_pawns: false,
        mine_sprite: None,
    }
}

/// Walking to the mine: stop once it cannot be mined, enter it on arrival.
pub open spec fn mining_move_step(m: StructureGoldMineData, arrived: bool) -> MiningStep {
    if !can_mine(m) {
        MiningStep { idle: true, ..quiet_mining(ActionState::Done) }
    } else if arrived {
        quiet_mining(ActionState::Running(ENTER_MINE))
    } else {
        quiet_mining(ActionState::Running(MOVE_TO_MINE))
    }
}

/// Shutting the mine: its pawns come out and the action is over.
pub open spec fn shut_step() -> MiningStep {
    MiningStep { respawn_pawns: true, mine_sprite: Some(MineSprite::Destroyed), ..quiet_mining(ActionState::Done) }
}

/// What a step of the mining action does; see `start_mining_action_step`.
pub open spec fn mining_next(state: ActionState, m: StructureGoldMineData, arrived: bool, timer_over: bool) -> MiningStep {
    match state {
        ActionState::Initial => MiningStep { walk: true, ..mining_move_step(m, arrived) },
        ActionState::Done => quiet_mining(state),
        ActionState::Running(step) => if step == MOVE_TO_MINE {
            mining_move_step(m, arrived)
        } else if step == ENTER_MINE {
            MiningStep {
                enter: true,
                restart_timer: m.miners_count == 0,
                mine_sprite: Some(MineSprite::Active),
                ..quiet_mining(ActionState::Running(MINING))
            }
        } else if step == MINING {
            let drop = timer_over && m.remaining_gold > 0;
            let left = if drop { m.remaining_gold - 1 } else { m.remaining_gold as int };
            MiningStep {
                restart_timer: timer_over,
                spawn_gold: drop,
                ..quiet_mining(
                    if left > 0 {
                        state
                    } else if m.miners_count > 0 {
                        ActionState::Running(DISABLE_MINE)
                    } else {
                        ActionState::Done
                    },
                )
            }
        } else if step == DISABLE_MINE {
            shut_step()
        } else {
            quiet_mining(state)
        },
    }
}

/// The mining action walks the pawn to the mine and enters it only once the
/// pawn has arrived and only while the mine has gold and a free slot; the
/// action ends, the pawn idling, exactly when the mine cannot be mined.
/// While mining, a nugget drops exactly when the timer runs out with gold
/// left.
pub proof fn lemma_mining_walks_until_arrived(first: bool, m: StructureGoldMineData, arrived: bool, timer_over: bool)
    ensures
        ({
            let g = mining_next(
                if first { ActionState::Initial } else { ActionState::Running(MOVE_TO_MINE) },
                m,
                arrived,
                timer_over,
            );
            let open = m.remaining_gold > 0 && m.miners_count < 3;
            &&& g.state == (if !open {
                ActionState::Done
            } else if arrived {
                ActionState::Running(ENTER_MINE)
            } else {
                ActionState::Running(MOVE_TO_MINE)
            })
            &&& g.idle == !open
            &&& g.walk == first
            &&& !g.enter && !g.spawn_gold && !g.respawn_pawns && g.mine_sprite is None
        }),
        mining_next(ActionState::Running(MINING), m, arrived, timer_over).spawn_gold == (timer_over
            && m.remaining_gold > 0),
{
}

/// One step of the action of pawn `pawn_id` mining gold in `mine`.
/// `arrived` tells whether the pawn reached the mine this frame,
/// `timer_over` whether the drop timer of the mine ran out. The pawn walks
/// to the mine while it can be mined and enters it, taking the next slot;
/// each time the timer runs out a nugget drops while gold is left; the empty
/// mine is shut and its pawns come out, or, with nobody inside, the action
/// simply ends.
pub fn start_mining_action_step(
    state: ActionState,
    mine: &mut StructureGoldMineData,
    pawn_id: u32,
    arrived: bool,
    timer_over: bool,
) -> (step: MiningStep)
    requires
        state == ActionState::Running(ENTER_MINE) ==> old(mine).miners_count < 3,
    ensures
        step == mining_next(state, *old(mine), arrived, timer_over),
        old(mine).wf() ==> final(mine).wf(),
        old(mine).remaining_gold - 1 <= final(mine).remaining_gold <= old(mine).remaining_gold,
        state == ActionState::Running(ENTER_MINE) ==> {
            &&& final(mine).miners_count == old(mine).miners_count + 1
            &&& final(mine).miners_ids@ == old(mine).miners_ids@.update(old(mine).miners_count as int, pawn_id)
            &&& final(mine).remaining_gold == old(mine).remaining_gold
        },
        state == ActionState::Running(MINING) ==> {
            &&& final(mine).remaining_gold == (if timer_over && old(mine).remaining_gold > 0 {
                (old(mine).remaining_gold - 1) as u8
            } else {
                old(mine).remaining_gold
            })
            &&& final(mine).miners_count == old(mine).miners_count
            &&& final(mine).miners_ids == old(mine).miners_ids
        },
        state == ActionState::Running(DISABLE_MINE) ==> {
            &&& final(mine).miners_count == 0
            &&& final(mine).miners_ids@ == seq![0u32, 0u32, 0u32]
            &&& final(mine).remaining_gold == old(mine).remaining_gold
        },
        state != ActionState::Running(ENTER_MINE) && state != ActionState::Running(MINING) && state
            != ActionState::Running(DISABLE_MINE) ==> *final(mine) == *old(mine),
{
    let quiet = MiningStep {
        state,
        walk: false,
        idle: false,
        enter: false,
        restart_timer: false,
        spawn_gold: false,
        respawn_pawns: false,
        mine_sprite: None,
    };
    match state {
        ActionState::Initial => {
            let step = mining_move(mine, arrived);
            MiningStep { walk: true, ..step }
        },
        ActionState::Done => quiet,
        ActionState::Running(s) => {
            if s == MOVE_TO_MINE {
                mining_move(mine, arrived)
            } else if s == ENTER_MINE {
                let first = mine.miners_count == 0;
                mine.enter(pawn_id);
                MiningStep {
                    state: ActionState::Running(MINING),
                    enter: true,
                    restart_timer: first,
                    mine_sprite: Some(MineSprite::Active),
                    ..quiet
                }
            } else if s == MINING {
                let drop = timer_over && mine.remaining_gold > 0;
                if drop {
                    mine.mine_one();
                }
                let next = if mine.remaining_gold > 0 {
                    state
                } else if mine.miners_count > 0 {
                    ActionState::Running(DISABLE_MINE)
                } else {
                    ActionState::Done
                };
                MiningStep { state: next, restart_timer: timer_over, spawn_gold: drop, ..quiet }
            } else if s == DISABLE_MINE {
                mine.disable();
                MiningStep {
                    state: ActionState::Done,
                    respawn_pawns: true,
                    mine_sprite: Some(MineSprite::Destroyed),
                    ..quiet
                }
            } else {
                quiet
            }
        },
    }
}

fn mining_move(mine: &StructureGoldMineData, arrived: bool) -> (step: MiningStep)
    ensures
        step == mining_move_step(*mine, arrived),
{
    let blocked = !mine.can_be_mined();
    let state = if blocked {
        ActionState::Done
    } else if arrived {
        ActionState::Running(ENTER_MINE)
    } else {
        ActionState::Running(MOVE_TO_MINE)
    };
    MiningStep {
        state,
        walk: false,
        idle: blocked,
        enter: false,
        restart_timer: false,
        spawn_gold: false,
        respawn_pawns: false,
        mine_sprite: None,
    }
}

/// The mining action is cancelled. A pawn inside the mine leaves it, and
/// the mine looks inactive once nobody is left mining; an action shutting
/// the empty mine finishes shutting it.
pub fn start_mining_action_cancel(state: ActionState, mine: &mut StructureGoldMineData, pawn_id: u32) -> (step:
    MiningStep)
    ensures
        old(mine).wf() ==> final(mine).wf(),
        final(mine).remaining_gold == old(mine).remaining_gold,
        state == ActionState::Running(MINING) ==> {
            &&& old(mine).miners_count > 0 ==> final(mine).miners_count == old(mine).miners_count - 1
            &&& old(mine).miners_count == 0 ==> final(mine).miners_count == 0
            &&& step == MiningStep {
                mine_sprite: if final(mine).miners_count == 0 { Some(MineSprite::Inactive) } else { None },
                ..quiet_mining(state)
            }
        },
        state == ActionState::Running(DISABLE_MINE) ==> step == shut_step() && final(mine).miners_count == 0,
        state != ActionState::Running(MINING) && state != ActionState::Running(DISABLE_MINE) ==> {
            &&& *final(mine) == *old(mine)
            &&& step == quiet_mining(state)
        },
{
    let quiet = MiningStep {
        state,
        walk: false,
        idle: false,
        enter: false,
        restart_timer: false,
        spawn_gold: false,
        respawn_pawns: false,
        mine_sprite: None,
    };
    if state == ActionState::Running(MINING) {
        mine.leave(pawn_id);
        if mine.miners_count == 0 {
            return MiningStep { mine_sprite: Some(MineSprite::Inactive), ..quiet };
        }
        quiet
    } else if state == ActionState::Running(DISABLE_MINE) {
        start_mining_action_step(state, mine, pawn_id, false, false)
    } else {
        quiet
    }
}

/// Walking to the target.
pub const MOVING: u8 = 0;
/// Arrived: the actor stops.
pub const STOPPING: u8 = 1;

/// An animation of a pawn.
#[derive(Debug, Clone, Copy, PartialEq, Eq, Structural)]
pub enum PawnAnimation {
    Walk,
    WalkHold,
    Idle,
    IdleHold,
}

/// What one step of the move action does.
#[derive(Debug, Clone, Copy, PartialEq, Eq, Structural)]
pub struct MoveStep {
    /// The state of the action after the step.
    pub state: ActionState,
    /// The new animation of the pawn, if it changes.
    pub animation: Option<PawnAnimation>,
}

/// The animation a pawn stops with: holding a resource or not.
pub open spec fn stop_animation(holding: bool) -> PawnAnimation {
    if holding { PawnAnimation::IdleHold } else { PawnAnimation::Idle }
}

/// What a step of the move action does; see `move_actor_action_step`.
pub open spec fn move_next(state: ActionState, actor: WorldObject, pawn_count: int, holding: bool, arrived: bool) -> MoveStep {
    if !(actor.ty == WorldObjectType::Pawn && actor.id < pawn_count) {
        MoveStep { state: ActionState::Done, animation: None }
    } else {
        match state {
            ActionState::Initial => MoveStep {
                state: ActionState::Running(MOVING),
                animation: Some(if holding { PawnAnimation::WalkHold } else { PawnAnimation::Walk }),
            },
            ActionState::Done => MoveStep { state, animation: None },
            ActionState::Running(step) => if step == MOVING {
                MoveStep { state: if arrived { ActionState::Running(STOPPING) } else { state }, animation: None }
            } else if step == STOPPING {
                MoveStep { state: ActionState::Done, animation: Some(stop_animation(holding)) }
            } else {
                MoveStep { state, animation: None }
            },
        }
    }
}

/// A pawn keeps walking until it reaches its target, and stops only then:
/// for a pawn that exists, a walking step stops exactly when it arrived and
/// otherwise leaves the action walking, with no new animation; the stop then
/// ends the action with the idle animation, holding what it holds. A move of
/// anything but an existing pawn is over at once.
pub proof fn lemma_move_walks_until_arrived(
    actor: WorldObject,
    pawn_count: int,
    holding: bool,
    arrived: bool,
    state: ActionState,
)
    ensures
        !(actor.ty == WorldObjectType::Pawn && actor.id < pawn_count) ==> move_next(
            state,
            actor,
            pawn_count,
            holding,
            arrived,
        ).state == ActionState::Done,
        actor.ty == WorldObjectType::Pawn && actor.id < pawn_count ==> {
            let walking = move_next(ActionState::Running(MOVING), actor, pawn_count, holding, arrived);
            let stopping = move_next(ActionState::Running(STOPPING), actor, pawn_count, holding, arrived);
            let starting = move_next(ActionState::Initial, actor, pawn_count, holding, arrived);
            &&& walking.state == (if arrived { ActionState::Running(STOPPING) } else { ActionState::Running(MOVING) })
            &&& walking.animation is None
            &&& !arrived ==> walking == (MoveStep { state: ActionState::Running(MOVING), animation: None })
            &&& stopping.state == ActionState::Done
            &&& stopping.animation == Some(if holding { PawnAnimation::IdleHold } else { PawnAnimation::Idle })
            &&& starting.state == ActionState::Running(MOVING)
            &&& starting.animation == Some(if holding { PawnAnimation::WalkHold } else { PawnAnimation::Walk })
        },
        move_next(ActionState::Done, actor, pawn_count, holding, arrived).state == ActionState::Done,
{
}

/// One step of the action moving `actor`, of `pawn_count` pawns, to its
/// target. `holding` tells whether the pawn holds a resource, `arrived`
/// whether it reached the target this frame. Only pawns move this way: the
/// action on anything else, or on a pawn that does not exist, is over at
/// once. The pawn walks, holding what it holds, then stops.
pub fn move_actor_action_step(state: ActionState, actor: WorldObject, pawn_count: usize, holding: bool, arrived: bool) -> (step:
    MoveStep)
    ensures
        step == move_next(state, actor, pawn_count as int, holding, arrived),
{
    if !(actor.ty == WorldObjectType::Pawn && (actor.id as usize) < pawn_count) {
        return MoveStep { state: ActionState::Done, animation: None };
    }
    match state {
        ActionState::Initial => MoveStep {
            state: ActionState::Running(MOVING),
            animation: Some(if holding { PawnAnimation::WalkHold } else { PawnAnimation::Walk }),
        },
        ActionState::Done => MoveStep { state, animation: None },
        ActionState::Running(s) => {
            if s == MOVING {
                MoveStep { state: if arrived { ActionState::Running(STOPPING) } else { state }, animation: None }
            } else if s == STOPPING {
                MoveStep {
                    state: ActionState::Done,
                    animation: Some(if holding { PawnAnimation::IdleHold } else { PawnAnimation::Idle }),
                }
            } else {
                MoveStep { state, animation: None }
            }
        },
    }
}

/// The move action is cancelled: a pawn that exists stops where it is and
/// takes this animation.
pub fn move_actor_action_cancel(actor: WorldObject, pawn_count: usize, holding: bool) -> (animation: Option<PawnAnimation>)
    ensures
        animation == (if actor.ty == WorldObjectType::Pawn && actor.id < pawn_count {
            Some(stop_animation(holding))
        } else {
            None
        }),
{
    if actor.ty == WorldObjectType::Pawn && (actor.id as usize) < pawn_count {
        Some(if holding { PawnAnimation::IdleHold } else { PawnAnimation::Idle })
    } else {
        None
    }
}

} // verus!
