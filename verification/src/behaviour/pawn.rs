//! The steps of the pawn behaviours that work at a structure: harvesting
//! gold in a mine and building. Movement and timing are measured by the
//! caller, who hands over whether the pawn arrived and whether the timer ran
//! out; each step says what changes.
use vstd::prelude::*;
use super::BehaviourState;
use crate::world::{ResourceData, ResourceType, TreeData, WorldObject, WorldObjectType};
use crate::actions::tasks::PawnAnimation;
use crate::pathfinding::{PathFindingData, PathfindingState};
use super::structures::{
    StructureData, StructureGoldMineData, early_exit, finished_building, max_hp, repaired_hp, state_of, with_state,
    StructureState,
};

verus! {

/// Walking to the mine.
pub const MOVE_TO_MINE: u8 = 0;
/// Entering the mine.
pub const ENTER_MINE: u8 = 1;
/// Mining, hidden inside the mine.
pub const MINING: u8 = 2;
/// Shutting the empty mine.
pub const DISABLE_MINE: u8 = 3;

/// The sprite a gold mine takes.
#[derive(Debug, Clone, Copy, PartialEq, Eq, Structural)]
pub enum MineSprite {
    /// Pawns are mining.
    Active,
    /// Nobody is mining.
    Inactive,
    /// No gold is left.
    Destroyed,
}

/// What one step of harvesting gold does.
#[derive(Debug, Clone, Copy, PartialEq, Eq, Structural)]
pub struct HarvestGoldStep {
    /// The state of the behaviour after the step.
    pub state: BehaviourState,
    /// The pawn gives up and idles.
    pub go_idle: bool,
    /// The pawn starts its walk animation.
    pub walk: bool,
    /// The pawn disappears into the mine.
    pub hide_pawn: bool,
    /// The mining timer starts again.
    pub restart_timer: bool,
    /// A gold nugget drops next to the mine.
    pub spawn_gold: bool,
    /// The pawns that were mining come back out.
    pub respawn_pawns: bool,
    /// The new sprite of the mine, if it changes.
    pub mine_sprite: Option<MineSprite>,
}

/// A step that changes nothing but the state.
pub open spec fn quiet_gold(state: BehaviourState) -> HarvestGoldStep {
    HarvestGoldStep {
        state,
        go_idle: false,
        walk: false,
        hide_pawn: false,
        restart_timer: false,
        spawn_gold: false,
        respawn_pawns: false,
        mine_sprite: None,
    }
}

/// Whether a pawn can start mining: gold is left and a slot is free.
pub open spec fn can_mine(m: StructureGoldMineData) -> bool {
    m.remaining_gold > 0 && m.miners_count < 3
}

/// Walking to the mine: give up once it cannot be mined, enter it on arrival.
pub open spec fn move_to_mine_step(m: StructureGoldMineData, arrived: bool) -> HarvestGoldStep {
    if !can_mine(m) {
        HarvestGoldStep { go_idle: true, ..quiet_gold(BehaviourState::Running(MOVE_TO_MINE)) }
    } else if arrived {
        quiet_gold(BehaviourState::Running(ENTER_MINE))
    } else {
        quiet_gold(BehaviourState::Running(MOVE_TO_MINE))
    }
}

/// What a step of harvesting gold does; see `harvest_gold_step`.
pub open spec fn harvest_gold_next(
    state: BehaviourState,
    m: StructureGoldMineData,
    arrived: bool,
    timer_over: bool,
) -> HarvestGoldStep {
    match state {
        BehaviourState::Initial => HarvestGoldStep { walk: true, ..move_to_mine_step(m, arrived) },
        BehaviourState::Running(step) => if step == MOVE_TO_MINE {
            move_to_mine_step(m, arrived)
        } else if step == ENTER_MINE {
            if !can_mine(m) {
                HarvestGoldStep { go_idle: true, ..quiet_gold(state) }
            } else {
                HarvestGoldStep {
                    hide_pawn: true,
                    restart_timer: true,
                    mine_sprite: Some(MineSprite::Active),
                    ..quiet_gold(BehaviourState::Running(MINING))
                }
            }
        } else if step == MINING {
            if m.remaining_gold == 0 {
                HarvestGoldStep { go_idle: true, ..quiet_gold(state) }
            } else {
                let left = if timer_over { m.remaining_gold - 1 } else { m.remaining_gold as int };
                HarvestGoldStep {
                    restart_timer: timer_over,
                    spawn_gold: timer_over,
                    ..quiet_gold(if left == 0 { BehaviourState::Running(DISABLE_MINE) } else { state })
                }
            }
        } else if step == DISABLE_MINE {
            if m.remaining_gold == 0 && m.miners_count == 0 {
                HarvestGoldStep { go_idle: true, ..quiet_gold(state) }
            } else {
                HarvestGoldStep { respawn_pawns: true, mine_sprite: Some(MineSprite::Destroyed), ..quiet_gold(state) }
            }
        } else {
            quiet_gold(state)
        },
    }
}

/// A pawn sent to a mine walks to it and enters only once it has arrived
/// and only while the mine has gold and a free slot; it gives up exactly
/// when the mine cannot be mined. Only the first step starts the walk, and
/// walking neither hides the pawn nor touches the mine.
pub proof fn lemma_gold_walks_until_arrived(first: bool, m: StructureGoldMineData, arrived: bool, timer_over: bool)
    ensures
        ({
            let g = harvest_gold_next(
                if first { BehaviourState::Initial } else { BehaviourState::Running(MOVE_TO_MINE) },
                m,
                arrived,
                timer_over,
            );
            let open = m.remaining_gold > 0 && m.miners_count < 3;
            &&& g.state == BehaviourState::Running(if arrived && open { ENTER_MINE } else { MOVE_TO_MINE })
            &&& g.go_idle == !open
            &&& g.walk == first
            &&& !g.hide_pawn && !g.restart_timer && !g.spawn_gold && !g.respawn_pawns && g.mine_sprite is None
        }),
{
}

/// A mining pawn drops a nugget exactly when the timer runs out while gold
/// is left, and the mine is shut once its last gold is taken.
pub proof fn lemma_mining_drops_gold(m: StructureGoldMineData, arrived: bool, timer_over: bool)
    ensures
        ({
            let g = harvest_gold_next(BehaviourState::Running(MINING), m, arrived, timer_over);
            &&& g.spawn_gold == (timer_over && m.remaining_gold > 0)
            &&& g.go_idle == (m.remaining_gold == 0)
            &&& g.state == BehaviourState::Running(
                if m.remaining_gold == 1 && timer_over { DISABLE_MINE } else { MINING },
            )
        }),
{
}

/// Shuts the mine: nobody mines it any more.
fn shut_mine(mine: &mut StructureGoldMineData) -> (step: HarvestGoldStep)
    ensures
        final(mine).miners_count == 0,
        final(mine).miners_ids@ == seq![0u32, 0u32, 0u32],
        final(mine).remaining_gold == old(mine).remaining_gold,
        step == (HarvestGoldStep {
            respawn_pawns: true,
            mine_sprite: Some(MineSprite::Destroyed),
            ..quiet_gold(BehaviourState::Running(DISABLE_MINE))
        }),
{
    mine.disable();
    HarvestGoldStep {
        state: BehaviourState::Running(DISABLE_MINE),
        go_idle: false,
        walk: false,
        hide_pawn: false,
        restart_timer: false,
        spawn_gold: false,
        respawn_pawns: true,
        mine_sprite: Some(MineSprite::Destroyed),
    }
}

/// One step of a pawn harvesting gold in `mine`. `arrived` tells whether
/// the pawn reached the mine this frame, `timer_over` whether the mining
/// timer ran out. The pawn walks to the mine and enters it when it can
/// still be mined, taking the next free slot; inside, a nugget drops each
/// time the timer runs out, until the mine is empty; the empty mine is then
/// shut and its pawns come out.
pub fn harvest_gold_step(
    state: BehaviourState,
    mine: &mut StructureGoldMineData,
    pawn_id: u32,
    arrived: bool,
    timer_over: bool,
) -> (step: HarvestGoldStep)
    ensures
        step == harvest_gold_next(state, *old(mine), arrived, timer_over),
        old(mine).wf() ==> final(mine).wf(),
        old(mine).remaining_gold - 1 <= final(mine).remaining_gold <= old(mine).remaining_gold,
        state == BehaviourState::Running(ENTER_MINE) && can_mine(*old(mine)) ==> {
            &&& final(mine).miners_count == old(mine).miners_count + 1
            &&& final(mine).miners_ids@ == old(mine).miners_ids@.update(old(mine).miners_count as int, pawn_id)
            &&& final(mine).remaining_gold == old(mine).remaining_gold
        },
        state == BehaviourState::Running(MINING) && old(mine).remaining_gold > 0 && timer_over ==> {
            &&& final(mine).remaining_gold == old(mine).remaining_gold - 1
            &&& final(mine).miners_count == old(mine).miners_count
            &&& final(mine).miners_ids == old(mine).miners_ids
        },
        state == BehaviourState::Running(DISABLE_MINE) && !(old(mine).remaining_gold == 0 && old(mine).miners_count
            == 0) ==> {
            &&& final(mine).miners_count == 0
            &&& final(mine).miners_ids@ == seq![0u32, 0u32, 0u32]
            &&& final(mine).remaining_gold == old(mine).remaining_gold
        },
        !(state == BehaviourState::Running(ENTER_MINE) && can_mine(*old(mine)))
            && !(state == BehaviourState::Running(MINING) && old(mine).remaining_gold > 0 && timer_over)
            && !(state == BehaviourState::Running(DISABLE_MINE) && !(old(mine).remaining_gold == 0
            && old(mine).miners_count == 0)) ==> *final(mine) == *old(mine),
{
    let quiet = HarvestGoldStep {
        state,
        go_idle: false,
        walk: false,
        hide_pawn: false,
        restart_timer: false,
        spawn_gold: false,
        respawn_pawns: false,
        mine_sprite: None,
    };
    match state {
        BehaviourState::Initial => {
            let step = move_to_mine(mine, arrived);
            HarvestGoldStep { walk: true, ..step }
        },
        BehaviourState::Running(s) => {
            if s == MOVE_TO_MINE {
                move_to_mine(mine, arrived)
            } else if s == ENTER_MINE {
                if !mine.can_be_mined() {
                    return HarvestGoldStep { go_idle: true, ..quiet };
                }
                mine.enter(pawn_id);
                HarvestGoldStep {
                    state: BehaviourState::Running(MINING),
                    hide_pawn: true,
                    restart_timer: true,
                    mine_sprite: Some(MineSprite::Active),
                    ..quiet
                }
            } else if s == MINING {
                if mine.remaining_gold == 0 {
                    return HarvestGoldStep { go_idle: true, ..quiet };
                }
                if timer_over {
                    mine.mine_one();
                }
                let next = if mine.remaining_gold == 0 { BehaviourState::Running(DISABLE_MINE) } else { state };
                HarvestGoldStep { state: next, restart_timer: timer_over, spawn_gold: timer_over, ..quiet }
            } else if s == DISABLE_MINE {
                if mine.remaining_gold == 0 && mine.miners_count == 0 {
                    return HarvestGoldStep { go_idle: true, ..quiet };
                }
                shut_mine(mine)
            } else {
                quiet
            }
        },
    }
}

fn move_to_mine(mine: &StructureGoldMineData, arrived: bool) -> (step: HarvestGoldStep)
    ensures
        step == move_to_mine_step(*mine, arrived),
{
    let state = if !mine.can_be_mined() || !arrived {
        BehaviourState::Running(MOVE_TO_MINE)
    } else {
        BehaviourState::Running(ENTER_MINE)
    };
    HarvestGoldStep {
        state,
        go_idle: !mine.can_be_mined(),
        walk: false,
        hide_pawn: false,
        restart_timer: false,
        spawn_gold: false,
        respawn_pawns: false,
        mine_sprite: None,
    }
}

/// A pawn harvesting gold is called off. A pawn inside the mine leaves it,
/// and the mine looks inactive once nobody is left mining; a pawn shutting
/// the empty mine finishes shutting it.
pub fn harvest_gold_cancel(state: BehaviourState, mine: &mut StructureGoldMineData, pawn_id: u32) -> (step:
    HarvestGoldStep)
    ensures
        old(mine).wf() ==> final(mine).wf(),
        final(mine).remaining_gold == old(mine).remaining_gold,
        state == BehaviourState::Running(MINING) ==> {
            &&& final(mine).remaining_gold == old(mine).remaining_gold
            &&& old(mine).miners_count > 0 ==> final(mine).miners_count == old(mine).miners_count - 1
            &&& old(mine).miners_count == 0 ==> final(mine).miners_count == 0
            &&& step == HarvestGoldStep {
                mine_sprite: if final(mine).miners_count == 0 { Some(MineSprite::Inactive) } else { None },
                ..quiet_gold(state)
            }
        },
        state == BehaviourState::Running(DISABLE_MINE) ==> step == harvest_gold_next(state, *old(mine), false, false),
        state != BehaviourState::Running(MINING) && state != BehaviourState::Running(DISABLE_MINE) ==> {
            &&& *final(mine) == *old(mine)
            &&& step == quiet_gold(state)
        },
{
    let quiet = HarvestGoldStep {
        state,
        go_idle: false,
        walk: false,
        hide_pawn: false,
        restart_timer: false,
        spawn_gold: false,
        respawn_pawns: false,
        mine_sprite: None,
    };
    if state == BehaviourState::Running(MINING) {
        mine.leave(pawn_id);
        if mine.miners_count == 0 {
            return HarvestGoldStep { mine_sprite: Some(MineSprite::Inactive), ..quiet };
        }
        quiet
    } else if state == BehaviourState::Running(DISABLE_MINE) {
        harvest_gold_step(state, mine, pawn_id, false, false)
    } else {
        quiet
    }
}

/// Walking to the structure.
pub const MOVE_TO_STRUCTURE: u8 = 0;
/// Hammering at the structure.
pub const BUILD_STRUCTURE: u8 = 1;
/// The structure is complete.
pub const FINALIZE_STRUCTURE: u8 = 2;

/// What one step of building does.
#[derive(Debug, Clone, Copy, PartialEq, Eq, Structural)]
pub struct BuildStep {
    /// The state of the behaviour after the step.
    pub state: BehaviourState,
    /// The pawn stops and idles.
    pub go_idle: bool,
    /// The pawn starts its walk animation.
    pub walk: bool,
    /// The pawn starts hammering, from the first frame.
    pub hammer: bool,
    /// The building timer starts again.
    pub restart_timer: bool,
    /// The structure takes the sprite of a complete structure.
    pub completed: bool,
}

/// A step that changes nothing but the state.
pub open spec fn quiet_build(state: BehaviourState) -> BuildStep {
    BuildStep { state, go_idle: false, walk: false, hammer: false, restart_timer: false, completed: false }
}

/// Whether the builder stops: the structure is not one pawns build, or it is complete.
pub open spec fn build_done(data: StructureData) -> bool {
    !(max_hp(data) matches Some(m) && state_of(data).hp != m)
}

/// Walking to the structure: stop once there is nothing to build, hammer on arrival.
pub open spec fn move_to_structure_step(data: StructureData, arrived: bool) -> BuildStep {
    if build_done(data) {
        BuildStep { go_idle: true, ..quiet_build(BehaviourState::Running(MOVE_TO_STRUCTURE)) }
    } else if arrived {
        BuildStep { hammer: true, ..quiet_build(BehaviourState::Running(BUILD_STRUCTURE)) }
    } else {
        quiet_build(BehaviourState::Running(MOVE_TO_STRUCTURE))
    }
}

/// What a step of building does; see `build_structure_step`.
pub open spec fn build_next(state: BehaviourState, data: StructureData, arrived: bool, timer_over: bool) -> BuildStep {
    match state {
        BehaviourState::Initial => BuildStep { walk: true, ..move_to_structure_step(data, arrived) },
        BehaviourState::Running(step) => if step == MOVE_TO_STRUCTURE {
            move_to_structure_step(data, arrived)
        } else if step == BUILD_STRUCTURE {
            if build_done(data) {
                BuildStep { go_idle: true, ..quiet_build(state) }
            } else if !timer_over {
                quiet_build(state)
            } else {
                let hp = repaired_hp(state_of(data).hp, max_hp(data)->0);
                BuildStep {
                    restart_timer: true,
                    ..quiet_build(
                        if hp == max_hp(data)->0 { BehaviourState::Running(FINALIZE_STRUCTURE) } else { state },
                    )
                }
            }
        } else if step == FINALIZE_STRUCTURE {
            BuildStep { go_idle: true, completed: max_hp(data) is Some, ..quiet_build(state) }
        } else {
            quiet_build(state)
        },
    }
}

/// A builder walks to the structure and hammers only once it has arrived
/// and while something is left to build; it stops exactly when there is
/// nothing to build. Only the first step starts the walk.
pub proof fn lemma_build_walks_until_arrived(first: bool, data: StructureData, arrived: bool, timer_over: bool)
    ensures
        ({
            let b = build_next(
                if first { BehaviourState::Initial } else { BehaviourState::Running(MOVE_TO_STRUCTURE) },
                data,
                arrived,
                timer_over,
            );
            let work = !build_done(data);
            &&& b.state == BehaviourState::Running(if arrived && work { BUILD_STRUCTURE } else { MOVE_TO_STRUCTURE })
            &&& b.hammer == (arrived && work)
            &&& b.go_idle == !work
            &&& b.walk == first
            &&& !b.restart_timer && !b.completed
        }),
{
}

/// One step of a pawn building `data`. `arrived` tells whether the pawn
/// reached the structure this frame, `timer_over` whether the building
/// timer ran out. The pawn walks to the structure and hammers at it; each
/// time the timer runs out the structure gains five hit points, up to its
/// maximum; once complete it is no longer under construction and the pawn
/// idles. A pawn stops as soon as there is nothing left to build.
pub fn build_structure_step(state: BehaviourState, data: &mut StructureData, arrived: bool, timer_over: bool) -> (step:
    BuildStep)
    requires
        state_of(*old(data)).hp <= 250,
    ensures
        step == build_next(state, *old(data), arrived, timer_over),
        max_hp(*old(data)) is Some && state_of(*old(data)).hp <= max_hp(*old(data))->0 ==> state_of(*old(data)).hp
            <= state_of(*final(data)).hp <= max_hp(*old(data))->0,
        state == BehaviourState::Running(BUILD_STRUCTURE) && !build_done(*old(data)) && timer_over
            ==> *final(data) == with_state(
            *old(data),
            StructureState { hp: repaired_hp(state_of(*old(data)).hp, max_hp(*old(data))->0), ..state_of(*old(data)) },
        ),
        state == BehaviourState::Running(FINALIZE_STRUCTURE) ==> *final(data) == finished_building(*old(data)),
        !(state == BehaviourState::Running(BUILD_STRUCTURE) && !build_done(*old(data)) && timer_over)
            && state != BehaviourState::Running(FINALIZE_STRUCTURE) ==> *final(data) == *old(data),
{
    let quiet = BuildStep { state, go_idle: false, walk: false, hammer: false, restart_timer: false, completed: false };
    match state {
        BehaviourState::Initial => {
            let step = move_to_structure(*data, arrived);
            BuildStep { walk: true, ..step }
        },
        BehaviourState::Running(s) => {
            if s == MOVE_TO_STRUCTURE {
                move_to_structure(*data, arrived)
            } else if s == BUILD_STRUCTURE {
                if early_exit(*data) {
                    return BuildStep { go_idle: true, ..quiet };
                }
                if !timer_over {
                    return quiet;
                }
                let complete = data.repair_step();
                let next = if complete { BehaviourState::Running(FINALIZE_STRUCTURE) } else { state };
                BuildStep { state: next, restart_timer: true, ..quiet }
            } else if s == FINALIZE_STRUCTURE {
                let buildable = data.max_hp().is_some();
                data.finish_building();
                BuildStep { go_idle: true, completed: buildable, ..quiet }
            } else {
                quiet
            }
        },
    }
}

fn move_to_structure(data: StructureData, arrived: bool) -> (step: BuildStep)
    ensures
        step == move_to_structure_step(data, arrived),
{
    let done = early_exit(data);
    let go = !done && arrived;
    BuildStep {
        state: if go { BehaviourState::Running(BUILD_STRUCTURE) } else { BehaviourState::Running(MOVE_TO_STRUCTURE) },
        go_idle: done,
        walk: false,
        hammer: go,
        restart_timer: false,
        completed: false,
    }
}

/// Walking to the tree.
pub const MOVE_TO_TREE: u8 = 0;
/// Raising the axe.
pub const BEGIN_CUT_TREE: u8 = 1;
/// Cutting.
pub const CUT_TREE: u8 = 2;
/// The tree fell: wood drops around it.
pub const SPAWN_WOOD: u8 = 3;

/// What one step of harvesting wood does.
#[derive(Debug, Clone, Copy, PartialEq, Eq, Structural)]
pub struct HarvestWoodStep {
    /// The state of the behaviour after the step.
    pub state: BehaviourState,
    /// The pawn stops and idles.
    pub go_idle: bool,
    /// The pawn starts its walk animation.
    pub walk: bool,
    /// The pawn swings its axe and the tree shakes, from the first frame.
    pub axe: bool,
    /// The cutting timer starts again.
    pub restart_timer: bool,
    /// The tree becomes a stump.
    pub stump: bool,
    /// Three pieces of wood drop around the tree.
    pub spawn_wood: bool,
    /// The pawn and the tree go back to their idle animations.
    pub idle_animations: bool,
}

/// A step that changes nothing but the state.
pub open spec fn quiet_wood(state: BehaviourState) -> HarvestWoodStep {
    HarvestWoodStep {
        state,
        go_idle: false,
        walk: false,
        axe: false,
        restart_timer: false,
        stump: false,
        spawn_wood: false,
        idle_animations: false,
    }
}

/// Walking to the tree: give up if it is taken or felled, start cutting on arrival.
pub open spec fn move_to_tree_step(tree: TreeData, arrived: bool) -> HarvestWoodStep {
    if tree.being_harvested || tree.life == 0 {
        HarvestWoodStep { go_idle: true, ..quiet_wood(BehaviourState::Running(MOVE_TO_TREE)) }
    } else if arrived {
        quiet_wood(BehaviourState::Running(BEGIN_CUT_TREE))
    } else {
        quiet_wood(BehaviourState::Running(MOVE_TO_TREE))
    }
}

/// The tree felled: a stump, free again, and wood around it.
pub open spec fn fell_step(state: BehaviourState) -> HarvestWoodStep {
    HarvestWoodStep { go_idle: true, stump: true, spawn_wood: true, ..quiet_wood(state) }
}

/// What a step of harvesting wood does; see `harvest_wood_step`.
pub open spec fn harvest_wood_next(state: BehaviourState, tree: TreeData, arrived: bool, timer_over: bool) -> HarvestWoodStep {
    match state {
        BehaviourState::Initial => HarvestWoodStep { walk: true, ..move_to_tree_step(tree, arrived) },
        BehaviourState::Running(step) => if step == MOVE_TO_TREE {
            move_to_tree_step(tree, arrived)
        } else if step == BEGIN_CUT_TREE {
            HarvestWoodStep {
                axe: true,
                restart_timer: true,
                ..quiet_wood(
                    if tree.life == 0 { BehaviourState::Running(SPAWN_WOOD) } else { BehaviourState::Running(CUT_TREE) },
                )
            }
        } else if step == CUT_TREE {
            let life = if timer_over && tree.life > 0 { tree.life - 1 } else { tree.life as int };
            HarvestWoodStep {
                restart_timer: timer_over,
                ..quiet_wood(if life == 0 { BehaviourState::Running(SPAWN_WOOD) } else { state })
            }
        } else if step == SPAWN_WOOD {
            fell_step(state)
        } else {
            quiet_wood(state)
        },
    }
}

/// A pawn sent to a tree walks to it and starts cutting only once it has
/// arrived, and only if the tree still stands and nobody else cuts it; it
/// gives up exactly when the tree is taken or felled. Walking touches
/// neither the axe nor the tree, and only the first step starts the walk.
pub proof fn lemma_wood_walks_until_arrived(first: bool, tree: TreeData, arrived: bool, timer_over: bool)
    ensures
        ({
            let w = harvest_wood_next(
                if first { BehaviourState::Initial } else { BehaviourState::Running(MOVE_TO_TREE) },
                tree,
                arrived,
                timer_over,
            );
            let free = !tree.being_harvested && tree.life > 0;
            &&& w.state == BehaviourState::Running(if arrived && free { BEGIN_CUT_TREE } else { MOVE_TO_TREE })
            &&& !arrived ==> w.state == BehaviourState::Running(MOVE_TO_TREE)
            &&& w.go_idle == !free
            &&& w.walk == first
            &&& !w.axe && !w.restart_timer && !w.stump && !w.spawn_wood && !w.idle_animations
        }),
{
}

/// One step of a pawn harvesting wood from `tree`. `arrived` tells whether
/// the pawn reached the tree this frame, `timer_over` whether the cutting
/// timer ran out. The pawn walks to a tree nobody is cutting and that still
/// stands, takes it, and takes one point of life from it each time the timer
/// runs out; once the tree falls it becomes a stump, free again, with wood
/// around it, and the pawn idles.
pub fn harvest_wood_step(state: BehaviourState, tree: &mut TreeData, arrived: bool, timer_over: bool) -> (step:
    HarvestWoodStep)
    ensures
        step == harvest_wood_next(state, *old(tree), arrived, timer_over),
        final(tree).life <= old(tree).life,
        *final(tree) == (if state == BehaviourState::Running(BEGIN_CUT_TREE) {
            TreeData { being_harvested: true, ..*old(tree) }
        } else if state == BehaviourState::Running(CUT_TREE) {
            TreeData { life: if timer_over && old(tree).life > 0 { (old(tree).life - 1) as u8 } else { old(tree).life }, ..*old(tree) }
        } else if state == BehaviourState::Running(SPAWN_WOOD) {
            TreeData { being_harvested: false, ..*old(tree) }
        } else {
            *old(tree)
        }),
{
    let quiet = HarvestWoodStep {
        state,
        go_idle: false,
        walk: false,
        axe: false,
        restart_timer: false,
        stump: false,
        spawn_wood: false,
        idle_animations: false,
    };
    match state {
        BehaviourState::Initial => {
            let step = move_to_tree(*tree, arrived);
            HarvestWoodStep { walk: true, ..step }
        },
        BehaviourState::Running(s) => {
            if s == MOVE_TO_TREE {
                move_to_tree(*tree, arrived)
            } else if s == BEGIN_CUT_TREE {
                tree.being_harvested = true;
                let next = if tree.life == 0 { BehaviourState::Running(SPAWN_WOOD) } else { BehaviourState::Running(CUT_TREE) };
                HarvestWoodStep { state: next, axe: true, restart_timer: true, ..quiet }
            } else if s == CUT_TREE {
                if timer_over && tree.life > 0 {
                    tree.life = tree.life - 1;
                }
                let next = if tree.life == 0 { BehaviourState::Running(SPAWN_WOOD) } else { state };
                HarvestWoodStep { state: next, restart_timer: timer_over, ..quiet }
            } else if s == SPAWN_WOOD {
                tree.being_harvested = false;
                HarvestWoodStep { go_idle: true, stump: true, spawn_wood: true, ..quiet }
            } else {
                quiet
            }
        },
    }
}

fn move_to_tree(tree: TreeData, arrived: bool) -> (step: HarvestWoodStep)
    ensures
        step == move_to_tree_step(tree, arrived),
{
    let blocked = tree.being_harvested || tree.life == 0;
    let go = !blocked && arrived;
    HarvestWoodStep {
        state: if go { BehaviourState::Running(BEGIN_CUT_TREE) } else { BehaviourState::Running(MOVE_TO_TREE) },
        go_idle: blocked,
        walk: false,
        axe: false,
        restart_timer: false,
        stump: false,
        spawn_wood: false,
        idle_animations: false,
    }
}

/// A pawn harvesting wood is called off: a pawn cutting lets go of the
/// tree, and a pawn whose tree fell finishes the fall.
pub fn harvest_wood_cancel(state: BehaviourState, tree: &mut TreeData) -> (step: HarvestWoodStep)
    ensures
        final(tree).life == old(tree).life,
        state == BehaviourState::Running(BEGIN_CUT_TREE) || state == BehaviourState::Running(CUT_TREE) ==> {
            &&& !final(tree).being_harvested
            &&& step == HarvestWoodStep { idle_animations: true, ..quiet_wood(state) }
        },
        state == BehaviourState::Running(SPAWN_WOOD) ==> !final(tree).being_harvested && step == fell_step(state),
        state != BehaviourState::Running(BEGIN_CUT_TREE) && state != BehaviourState::Running(CUT_TREE)
            && state != BehaviourState::Running(SPAWN_WOOD) ==> *final(tree) == *old(tree) && step == quiet_wood(state),
{
    let quiet = HarvestWoodStep {
        state,
        go_idle: false,
        walk: false,
        axe: false,
        restart_timer: false,
        stump: false,
        spawn_wood: false,
        idle_animations: false,
    };
    if state == BehaviourState::Running(BEGIN_CUT_TREE) || state == BehaviourState::Running(CUT_TREE) {
        tree.being_harvested = false;
        HarvestWoodStep { idle_animations: true, ..quiet }
    } else if state == BehaviourState::Running(SPAWN_WOOD) {
        tree.being_harvested = false;
        HarvestWoodStep { go_idle: true, stump: true, spawn_wood: true, ..quiet }
    } else {
        quiet
    }
}

/// Walking to the sheep.
pub const MOVE_TO_SHEEP: u8 = 0;
/// Swinging at the sheep.
pub const ATTACK_SHEEP: u8 = 1;
/// Waiting before chasing the sheep again.
pub const PAUSE: u8 = 3;

/// What one step of hunting a sheep does.
#[derive(Debug, Clone, Copy, PartialEq, Eq, Structural)]
pub struct HuntSheepStep {
    /// The state of the behaviour after the step.
    pub state: BehaviourState,
    /// The pawn stops and idles.
    pub go_idle: bool,
    /// The pawn starts its walk animation, from the first frame.
    pub walk: bool,
    /// The pawn starts swinging its axe, from the first frame.
    pub axe: bool,
    /// The pawn stands still.
    pub stand: bool,
    /// The attack timer starts again.
    pub restart_timer: bool,
    /// The sheep is struck.
    pub strike: bool,
}

/// A step that changes nothing but the state.
pub open spec fn quiet_hunt(state: BehaviourState) -> HuntSheepStep {
    HuntSheepStep { state, go_idle: false, walk: false, axe: false, stand: false, restart_timer: false, strike: false }
}

/// Walking to the sheep: give up once it is dead, swing on arrival.
pub open spec fn move_to_sheep_step(sheep_life: u8, arrived: bool) -> HuntSheepStep {
    if sheep_life == 0 {
        HuntSheepStep { go_idle: true, ..quiet_hunt(BehaviourState::Running(MOVE_TO_SHEEP)) }
    } else if arrived {
        HuntSheepStep { axe: true, restart_timer: true, ..quiet_hunt(BehaviourState::Running(ATTACK_SHEEP)) }
    } else {
        quiet_hunt(BehaviourState::Running(MOVE_TO_SHEEP))
    }
}

/// What a step of hunting a sheep does; see `hunt_sheep_step`.
pub open spec fn hunt_sheep_next(
    state: BehaviourState,
    sheep_life: u8,
    arrived: bool,
    out_of_reach: bool,
    strike_ready: bool,
    pause_over: bool,
) -> HuntSheepStep {
    match state {
        BehaviourState::Initial => HuntSheepStep { walk: true, ..move_to_sheep_step(sheep_life, arrived) },
        BehaviourState::Running(step) => if step == MOVE_TO_SHEEP {
            move_to_sheep_step(sheep_life, arrived)
        } else if step == ATTACK_SHEEP {
            if sheep_life == 0 {
                HuntSheepStep { go_idle: true, ..quiet_hunt(state) }
            } else if out_of_reach {
                HuntSheepStep { stand: true, restart_timer: true, ..quiet_hunt(BehaviourState::Running(PAUSE)) }
            } else if strike_ready {
                HuntSheepStep { restart_timer: true, strike: true, ..quiet_hunt(state) }
            } else {
                quiet_hunt(state)
            }
        } else if step == PAUSE {
            if pause_over {
                HuntSheepStep { walk: true, ..quiet_hunt(BehaviourState::Running(MOVE_TO_SHEEP)) }
            } else {
                quiet_hunt(state)
            }
        } else {
            quiet_hunt(state)
        },
    }
}

/// A pawn chasing a living sheep swings at it each time it catches up: on
/// the first approach and on every later one after the sheep ran off, an
/// arrival starts the axe from the first frame with the attack timer just
/// started, and until then the pawn keeps chasing. It gives up exactly when
/// the sheep is dead, and never strikes while chasing.
pub proof fn lemma_hunt_swings_on_arrival(
    first: bool,
    sheep_life: u8,
    arrived: bool,
    out_of_reach: bool,
    strike_ready: bool,
    pause_over: bool,
)
    ensures
        ({
            let h = hunt_sheep_next(
                if first { BehaviourState::Initial } else { BehaviourState::Running(MOVE_TO_SHEEP) },
                sheep_life,
                arrived,
                out_of_reach,
                strike_ready,
                pause_over,
            );
            let swing = sheep_life > 0 && arrived;
            &&& h.state == BehaviourState::Running(if swing { ATTACK_SHEEP } else { MOVE_TO_SHEEP })
            &&& h.axe == swing
            &&& h.restart_timer == swing
            &&& h.go_idle == (sheep_life == 0)
            &&& h.walk == first
            &&& !h.strike && !h.stand
        }),
{
}

/// A pawn swinging at a sheep strikes it only while it lives, stays in
/// reach and the swing is ready; a sheep that runs off makes the pawn stand
/// and wait, then chase it again once the pause is over.
pub proof fn lemma_hunt_strikes_in_reach(
    sheep_life: u8,
    arrived: bool,
    out_of_reach: bool,
    strike_ready: bool,
    pause_over: bool,
)
    ensures
        ({
            let h = hunt_sheep_next(
                BehaviourState::Running(ATTACK_SHEEP),
                sheep_life,
                arrived,
                out_of_reach,
                strike_ready,
                pause_over,
            );
            &&& h.strike == (sheep_life > 0 && !out_of_reach && strike_ready)
            &&& h.go_idle == (sheep_life == 0)
            &&& sheep_life > 0 && out_of_reach ==> h.state == BehaviourState::Running(PAUSE) && h.stand
        }),
        ({
            let h = hunt_sheep_next(
                BehaviourState::Running(PAUSE),
                sheep_life,
                arrived,
                out_of_reach,
                strike_ready,
                pause_over,
            );
            &&& h.state == BehaviourState::Running(if pause_over { MOVE_TO_SHEEP } else { PAUSE })
            &&& h.walk == pause_over
            &&& !h.strike
        }),
{
}

/// One step of a pawn hunting a sheep with `sheep_life` left. `arrived`
/// tells whether the pawn reached the sheep this frame, `out_of_reach`
/// whether the sheep ran out of the axe's reach, `strike_ready` whether the
/// swing is at its last frame and the attack timer ran out, `pause_over`
/// whether the pause after losing the sheep is over. The pawn chases the
/// sheep and strikes it while it stays in reach; when it runs off, the pawn
/// waits a moment and chases it again; once the sheep is dead it idles.
pub fn hunt_sheep_step(
    state: BehaviourState,
    sheep_life: u8,
    arrived: bool,
    out_of_reach: bool,
    strike_ready: bool,
    pause_over: bool,
) -> (step: HuntSheepStep)
    ensures
        step == hunt_sheep_next(state, sheep_life, arrived, out_of_reach, strike_ready, pause_over),
{
    let quiet = HuntSheepStep {
        state,
        go_idle: false,
        walk: false,
        axe: false,
        stand: false,
        restart_timer: false,
        strike: false,
    };
    match state {
        BehaviourState::Initial => {
            let step = move_to_sheep(sheep_life, arrived);
            HuntSheepStep { walk: true, ..step }
        },
        BehaviourState::Running(s) => {
            if s == MOVE_TO_SHEEP {
                move_to_sheep(sheep_life, arrived)
            } else if s == ATTACK_SHEEP {
                if sheep_life == 0 {
                    HuntSheepStep { go_idle: true, ..quiet }
                } else if out_of_reach {
                    HuntSheepStep { state: BehaviourState::Running(PAUSE), stand: true, restart_timer: true, ..quiet }
                } else if strike_ready {
                    HuntSheepStep { restart_timer: true, strike: true, ..quiet }
                } else {
                    quiet
                }
            } else if s == PAUSE {
                if pause_over {
                    HuntSheepStep { state: BehaviourState::Running(MOVE_TO_SHEEP), walk: true, ..quiet }
                } else {
                    quiet
                }
            } else {
                quiet
            }
        },
    }
}

fn move_to_sheep(sheep_life: u8, arrived: bool) -> (step: HuntSheepStep)
    ensures
        step == move_to_sheep_step(sheep_life, arrived),
{
    let dead = sheep_life == 0;
    let go = !dead && arrived;
    HuntSheepStep {
        state: if go { BehaviourState::Running(ATTACK_SHEEP) } else { BehaviourState::Running(MOVE_TO_SHEEP) },
        go_idle: dead,
        walk: false,
        axe: go,
        stand: false,
        restart_timer: go,
        strike: false,
    }
}

/// Walking to the resource.
pub const MOVE_TO_RESOURCE: u8 = 0;
/// Picking the resource up.
pub const GRAB_RESOURCE: u8 = 1;

/// What one step of picking up a resource does.
#[derive(Debug, Clone, Copy, PartialEq, Eq, Structural)]
pub struct GrabStep {
    /// The state of the behaviour after the step.
    pub state: BehaviourState,
    /// The pawn stops and idles.
    pub go_idle: bool,
    /// The pawn starts its walk animation.
    pub walk: bool,
    /// The pawn now holds the resource above its head.
    pub picked_up: bool,
}

/// What a step of picking up a resource does; see `grab_resource_step`.
pub open spec fn grab_next(state: BehaviourState, resource: ResourceData, arrived: bool) -> GrabStep {
    let moving = if resource.grabbed {
        GrabStep { state: BehaviourState::Running(MOVE_TO_RESOURCE), go_idle: true, walk: false, picked_up: false }
    } else {
        GrabStep {
            state: BehaviourState::Running(if arrived { GRAB_RESOURCE } else { MOVE_TO_RESOURCE }),
            go_idle: false,
            walk: false,
            picked_up: false,
        }
    };
    match state {
        BehaviourState::Initial => GrabStep { walk: true, ..moving },
        BehaviourState::Running(step) => if step == MOVE_TO_RESOURCE {
            moving
        } else if step == GRAB_RESOURCE {
            GrabStep { state, go_idle: true, walk: false, picked_up: !resource.grabbed }
        } else {
            GrabStep { state, go_idle: false, walk: false, picked_up: false }
        },
    }
}

/// A pawn sent to a resource walks to it and picks it up only once it has
/// arrived and only if no other pawn holds it; it gives up exactly when the
/// resource is already held. Only the first step starts the walk.
pub proof fn lemma_grab_walks_until_arrived(first: bool, resource: ResourceData, arrived: bool)
    ensures
        ({
            let g = grab_next(
                if first { BehaviourState::Initial } else { BehaviourState::Running(MOVE_TO_RESOURCE) },
                resource,
                arrived,
            );
            &&& g.state == BehaviourState::Running(
                if arrived && !resource.grabbed { GRAB_RESOURCE } else { MOVE_TO_RESOURCE },
            )
            &&& g.go_idle == resource.grabbed
            &&& g.walk == first
            &&& !g.picked_up
        }),
        ({
            let g = grab_next(BehaviourState::Running(GRAB_RESOURCE), resource, arrived);
            &&& g.go_idle
            &&& g.picked_up == !resource.grabbed
        }),
{
}

/// One step of a pawn picking up `resource`, the resource at `resource_index`.
/// `arrived` tells whether the pawn reached it this frame. The pawn walks to
/// the resource and picks it up unless another pawn got it first; either way
/// it then idles. `held` is the resource the pawn holds.
pub fn grab_resource_step(
    state: BehaviourState,
    resource: &mut ResourceData,
    held: &mut u32,
    resource_index: u32,
    arrived: bool,
) -> (step: GrabStep)
    ensures
        step == grab_next(state, *old(resource), arrived),
        step.picked_up ==> !old(resource).grabbed && final(resource).grabbed && *final(held) == resource_index,
        !step.picked_up ==> *final(resource) == *old(resource) && *final(held) == *old(held),
        final(resource).resource_type == old(resource).resource_type,
{
    let taken = resource.grabbed;
    match state {
        BehaviourState::Initial => GrabStep {
            state: BehaviourState::Running(if !taken && arrived { GRAB_RESOURCE } else { MOVE_TO_RESOURCE }),
            go_idle: taken,
            walk: true,
            picked_up: false,
        },
        BehaviourState::Running(s) => {
            if s == MOVE_TO_RESOURCE {
                GrabStep {
                    state: BehaviourState::Running(if !taken && arrived { GRAB_RESOURCE } else { MOVE_TO_RESOURCE }),
                    go_idle: taken,
                    walk: false,
                    picked_up: false,
                }
            } else if s == GRAB_RESOURCE {
                if !taken {
                    *held = resource_index;
                    resource.grabbed = true;
                }
                GrabStep { state, go_idle: true, walk: false, picked_up: !taken }
            } else {
                GrabStep { state, go_idle: false, walk: false, picked_up: false }
            }
        },
    }
}

/// Whether `pawn` names one of `pawn_count` pawns and `target` one of
/// `target_count` objects of kind `kind`.
pub open spec fn pawn_and_target(
    pawn: WorldObject,
    pawn_count: int,
    target: WorldObject,
    kind: WorldObjectType,
    target_count: int,
) -> bool {
    pawn.ty == WorldObjectType::Pawn && target.ty == kind && pawn.id < pawn_count && target.id < target_count
}

fn check_pawn_and_target(
    pawn: WorldObject,
    pawn_count: usize,
    target: WorldObject,
    kind: WorldObjectType,
    target_count: usize,
) -> (b: bool)
    ensures
        b == pawn_and_target(pawn, pawn_count as int, target, kind, target_count as int),
{
    pawn.ty == WorldObjectType::Pawn && target.ty == kind && (pawn.id as usize) < pawn_count && (target.id as usize)
        < target_count
}

/// Whether a pawn may start cutting `tree`: a tree that still stands and
/// that no pawn is cutting.
pub fn can_harvest_wood(pawn: WorldObject, pawn_count: usize, tree: WorldObject, trees: &Vec<TreeData>) -> (b: bool)
    ensures
        b == (pawn_and_target(pawn, pawn_count as int, tree, WorldObjectType::Tree, trees@.len() as int)
            && trees@[tree.id as int].life > 0 && !trees@[tree.id as int].being_harvested),
{
    if !check_pawn_and_target(pawn, pawn_count, tree, WorldObjectType::Tree, trees.len()) {
        return false;
    }
    let t = trees[tree.id as usize];
    t.life > 0 && !t.being_harvested
}

/// Whether a pawn may start mining `structure`: a gold mine with gold left and a free slot.
pub fn can_harvest_gold(pawn: WorldObject, pawn_count: usize, structure: WorldObject, structures: &Vec<StructureData>) -> (b:
    bool)
    ensures
        b == (pawn_and_target(pawn, pawn_count as int, structure, WorldObjectType::Structure, structures@.len() as int)
            && (structures@[structure.id as int] matches StructureData::GoldMine(m) && can_mine(m))),
{
    if !check_pawn_and_target(pawn, pawn_count, structure, WorldObjectType::Structure, structures.len()) {
        return false;
    }
    match structures[structure.id as usize] {
        StructureData::GoldMine(m) => m.can_be_mined(),
        _ => false,
    }
}

/// Whether a pawn may start building `structure`: one pawns build, not complete yet.
pub fn can_build(pawn: WorldObject, pawn_count: usize, structure: WorldObject, structures: &Vec<StructureData>) -> (b:
    bool)
    ensures
        b == (pawn_and_target(pawn, pawn_count as int, structure, WorldObjectType::Structure, structures@.len() as int)
            && (max_hp(structures@[structure.id as int]) matches Some(m) && state_of(structures@[structure.id as int]).hp
            < m)),
{
    if !check_pawn_and_target(pawn, pawn_count, structure, WorldObjectType::Structure, structures.len()) {
        return false;
    }
    structures[structure.id as usize].can_be_built()
}

/// Whether a pawn may go and pick up `resource`: one nobody holds.
pub fn can_grab(pawn: WorldObject, pawn_count: usize, resource: WorldObject, resources: &Vec<ResourceData>) -> (b: bool)
    ensures
        b == (pawn_and_target(pawn, pawn_count as int, resource, WorldObjectType::Resource, resources@.len() as int)
            && !resources@[resource.id as int].grabbed),
{
    if !check_pawn_and_target(pawn, pawn_count, resource, WorldObjectType::Resource, resources.len()) {
        return false;
    }
    !resources[resource.id as usize].grabbed
}

/// Whether a pawn may start hunting `sheep`.
pub fn can_hunt(pawn: WorldObject, pawn_count: usize, sheep: WorldObject, sheep_count: usize) -> (b: bool)
    ensures
        b == pawn_and_target(pawn, pawn_count as int, sheep, WorldObjectType::Sheep, sheep_count as int),
{
    check_pawn_and_target(pawn, pawn_count, sheep, WorldObjectType::Sheep, sheep_count)
}

/// One step of an idle pawn: the first step sets its idle animation,
/// holding what it holds, and later steps do nothing.
pub fn idle_step(state: BehaviourState, holding: bool) -> (r: (BehaviourState, Option<PawnAnimation>))
    ensures
        r == (if state == BehaviourState::Initial {
            (BehaviourState::Running(0), Some(if holding { PawnAnimation::IdleHold } else { PawnAnimation::Idle }))
        } else {
            (state, None)
        }),
{
    if state == BehaviourState::Initial {
        (BehaviourState::Running(0), Some(if holding { PawnAnimation::IdleHold } else { PawnAnimation::Idle }))
    } else {
        (state, None)
    }
}

/// A pawn holding the resource at `*held` (`u32::MAX` for none) drops it:
/// the resource is free again and the pawn holds nothing. Returns the
/// resource dropped and its type, to put it on the ground.
pub fn drop_resource(held: &mut u32, resources: &mut Vec<ResourceData>) -> (r: Option<(usize, ResourceType)>)
    requires
        *old(held) != u32::MAX ==> *old(held) < old(resources)@.len(),
    ensures
        *old(held) == u32::MAX ==> r is None && *final(held) == u32::MAX && final(resources)@ == old(resources)@,
        *old(held) != u32::MAX ==> {
            let i = *old(held) as int;
            &&& r == Some((i as usize, old(resources)@[i].resource_type))
            &&& *final(held) == u32::MAX
            &&& final(resources)@ == old(resources)@.update(i, ResourceData { grabbed: false, ..old(resources)@[i] })
        },
{
    if *held == u32::MAX {
        return None;
    }
    let i = *held as usize;
    let mut data = resources[i];
    data.grabbed = false;
    resources.set(i, data);
    *held = u32::MAX;
    Some((i, data.resource_type))
}

/// Walking along a path.
pub const PAWN_MOVING: u8 = 0;

/// What one step of a pawn walking along its path does.
#[derive(Debug, Clone, Copy, PartialEq, Eq, Structural)]
pub struct PawnMoveStep {
    /// The state of the behaviour after the step.
    pub state: BehaviourState,
    /// The new animation of the pawn, if it changes.
    pub animation: Option<PawnAnimation>,
    /// The path is walked: the pawn idles.
    pub go_idle: bool,
}

/// One step of a pawn walking along its path, `holding` a resource or not.
/// `at_waypoint` tells whether the pawn stands on the point it walks to; it
/// then takes the next point of its path, and idles once the path is walked.
pub fn pawn_move_step<P: Copy>(
    state: BehaviourState,
    holding: bool,
    at_waypoint: bool,
    paths: &PathfindingState<P>,
    walk: &mut PathFindingData<P>,
) -> (step: PawnMoveStep)
    requires
        state == BehaviourState::Running(PAWN_MOVING) && at_waypoint ==> old(walk).path_id < paths.paths@.len()
            && old(walk).current_node_index < u32::MAX,
    ensures
        state == BehaviourState::Initial ==> *final(walk) == *old(walk) && step == (PawnMoveStep {
            state: BehaviourState::Running(PAWN_MOVING),
            animation: Some(if holding { PawnAnimation::WalkHold } else { PawnAnimation::Walk }),
            go_idle: false,
        }),
        state == BehaviourState::Running(PAWN_MOVING) && !at_waypoint ==> *final(walk) == *old(walk) && step == (
        PawnMoveStep { state, animation: None, go_idle: false }),
        state == BehaviourState::Running(PAWN_MOVING) && at_waypoint ==> ({
            let nodes = paths.paths@[old(walk).path_id as int].nodes@;
            let next = old(walk).current_node_index + 1;
            if next >= nodes.len() {
                *final(walk) == *old(walk) && step == (PawnMoveStep { state, animation: None, go_idle: true })
            } else {
                *final(walk) == (PathFindingData {
                    next_position: nodes[next],
                    path_id: old(walk).path_id,
                    current_node_index: next as u32,
                }) && step == (PawnMoveStep { state, animation: None, go_idle: false })
            }
        }),
        state != BehaviourState::Initial && state != BehaviourState::Running(PAWN_MOVING) ==> *final(walk) == *old(walk)
            && step == (PawnMoveStep { state, animation: None, go_idle: false }),
{
    if state == BehaviourState::Initial {
        return PawnMoveStep {
            state: BehaviourState::Running(PAWN_MOVING),
            animation: Some(if holding { PawnAnimation::WalkHold } else { PawnAnimation::Walk }),
            go_idle: false,
        };
    }
    if state == BehaviourState::Running(PAWN_MOVING) && at_waypoint {
        let done = paths.compute_path(walk);
        return PawnMoveStep { state, animation: None, go_idle: done };
    }
    PawnMoveStep { state, animation: None, go_idle: false }
}

} // verus!
