use game::actions::base::ActionState;
use game::actions::tasks::{
    cut_tree_action_cancel, cut_tree_action_step, move_actor_action_cancel, move_actor_action_step,
    start_mining_action_cancel, start_mining_action_step, PawnAnimation, BEGIN_CUT_TREE, CUT_TREE, DISABLE_MINE,
    ENTER_MINE, MINING, MOVE_TO_MINE, MOVE_TO_TREE, MOVING, SPAWN_WOOD, STOPPING,
};
use game::behaviour::pawn::MineSprite;
use game::behaviour::structures::StructureGoldMineData;
use game::world::{TreeData, WorldObject, WorldObjectType};

use ActionState::{Done, Initial, Running};

#[test]
fn cut_tree_action_runs() {
    let mut t = TreeData { life: 1, being_harvested: false };
    let s = cut_tree_action_step(Initial, &mut t, false, false);
    assert!(s.walk);
    assert_eq!(s.state, Running(MOVE_TO_TREE));
    let s = cut_tree_action_step(Running(MOVE_TO_TREE), &mut t, true, false);
    assert_eq!(s.state, Running(BEGIN_CUT_TREE));
    let s = cut_tree_action_step(Running(BEGIN_CUT_TREE), &mut t, false, false);
    assert_eq!(s.state, Running(CUT_TREE));
    assert!(s.axe && t.being_harvested);
    let s = cut_tree_action_step(Running(CUT_TREE), &mut t, false, false);
    assert_eq!((s.state, t.life), (Running(CUT_TREE), 1));
    let s = cut_tree_action_step(Running(CUT_TREE), &mut t, false, true);
    assert_eq!((s.state, t.life), (Running(SPAWN_WOOD), 0));
    let s = cut_tree_action_step(Running(SPAWN_WOOD), &mut t, false, false);
    assert_eq!(s.state, Done);
    assert!(s.fell && s.idle && !t.being_harvested);
    let mut taken = TreeData { life: 4, being_harvested: true };
    let s = cut_tree_action_step(Running(MOVE_TO_TREE), &mut taken, true, false);
    assert_eq!(s.state, Done);
    assert!(s.idle);
    cut_tree_action_cancel(&mut taken);
    assert!(!taken.being_harvested);
    assert_eq!(taken.life, 4);
}

#[test]
fn mining_action_runs() {
    let mut m = StructureGoldMineData { remaining_gold: 1, miners_count: 0, miners_ids: [0; 3] };
    let s = start_mining_action_step(Initial, &mut m, 2, true, false);
    assert!(s.walk);
    assert_eq!(s.state, Running(ENTER_MINE));
    let s = start_mining_action_step(Running(ENTER_MINE), &mut m, 2, false, false);
    assert!(s.enter && s.restart_timer);
    assert_eq!(s.mine_sprite, Some(MineSprite::Active));
    assert_eq!((m.miners_count, m.miners_ids[0]), (1, 2));
    let s = start_mining_action_step(Running(MINING), &mut m, 2, false, true);
    assert!(s.spawn_gold);
    assert_eq!(s.state, Running(DISABLE_MINE));
    let s = start_mining_action_step(Running(DISABLE_MINE), &mut m, 2, false, false);
    assert_eq!(s.state, Done);
    assert!(s.respawn_pawns);
    assert_eq!(m.miners_count, 0);
    let mut empty = StructureGoldMineData { remaining_gold: 0, miners_count: 0, miners_ids: [0; 3] };
    let s = start_mining_action_step(Running(MOVE_TO_MINE), &mut empty, 2, true, false);
    assert_eq!(s.state, Done);
    assert!(s.idle);
    let s = start_mining_action_step(Running(MINING), &mut empty, 2, false, true);
    assert_eq!(s.state, Done);
    assert!(!s.spawn_gold);
}

#[test]
fn mining_action_cancel() {
    let mut m = StructureGoldMineData { remaining_gold: 3, miners_count: 0, miners_ids: [0; 3] };
    m.enter(5);
    let s = start_mining_action_cancel(Running(MINING), &mut m, 5);
    assert_eq!(s.mine_sprite, Some(MineSprite::Inactive));
    assert_eq!(m.miners_count, 0);
    let s = start_mining_action_cancel(Running(MOVE_TO_MINE), &mut m, 5);
    assert_eq!(s.mine_sprite, None);
}

#[test]
fn move_action_runs() {
    let pawn = WorldObject { id: 0, ty: WorldObjectType::Pawn };
    let s = move_actor_action_step(Initial, pawn, 1, true, false);
    assert_eq!(s.state, Running(MOVING));
    assert_eq!(s.animation, Some(PawnAnimation::WalkHold));
    let s = move_actor_action_step(Running(MOVING), pawn, 1, true, true);
    assert_eq!(s.state, Running(STOPPING));
    let s = move_actor_action_step(Running(STOPPING), pawn, 1, false, false);
    assert_eq!(s.state, Done);
    assert_eq!(s.animation, Some(PawnAnimation::Idle));
    let sheep = WorldObject { id: 0, ty: WorldObjectType::Sheep };
    assert_eq!(move_actor_action_step(Initial, sheep, 1, false, false).state, Done);
    assert_eq!(move_actor_action_step(Initial, pawn, 0, false, false).state, Done);
    assert_eq!(move_actor_action_cancel(pawn, 1, true), Some(PawnAnimation::IdleHold));
    assert_eq!(move_actor_action_cancel(sheep, 1, true), None);
}
