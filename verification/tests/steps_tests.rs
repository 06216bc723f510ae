use game::behaviour::pawn::{
    build_structure_step, grab_resource_step, harvest_gold_cancel, harvest_gold_step, harvest_wood_cancel,
    harvest_wood_step, hunt_sheep_step, MineSprite, ATTACK_SHEEP, BEGIN_CUT_TREE, BUILD_STRUCTURE, CUT_TREE,
    DISABLE_MINE, ENTER_MINE, FINALIZE_STRUCTURE, GRAB_RESOURCE, MINING, MOVE_TO_MINE, MOVE_TO_RESOURCE,
    MOVE_TO_SHEEP, MOVE_TO_STRUCTURE, MOVE_TO_TREE, PAUSE, SPAWN_WOOD,
};
use game::behaviour::structures::{StructureData, StructureGoldMineData, StructureState};
use game::behaviour::{BehaviourState, SpawnResourceBehaviour, SpawnStep};
use game::output::{terrain_chunk_updates, UpdateTerrainChunkParams};
use game::behaviour::pawn::{can_build, can_grab, can_harvest_gold, can_harvest_wood, can_hunt};
use game::world::{ResourceData, ResourceType, TreeData, WorldObject, WorldObjectType};

use BehaviourState::{Initial, Running};

fn mine(gold: u8) -> StructureGoldMineData {
    StructureGoldMineData { remaining_gold: gold, miners_count: 0, miners_ids: [0; 3] }
}

#[test]
fn gold_harvest_runs_to_the_end() {
    let mut m = mine(2);
    let s = harvest_gold_step(Initial, &mut m, 4, false, false);
    assert!(s.walk && !s.go_idle);
    assert_eq!(s.state, Running(MOVE_TO_MINE));
    let s = harvest_gold_step(Running(MOVE_TO_MINE), &mut m, 4, true, false);
    assert_eq!(s.state, Running(ENTER_MINE));
    let s = harvest_gold_step(Running(ENTER_MINE), &mut m, 4, false, false);
    assert_eq!(s.state, Running(MINING));
    assert!(s.hide_pawn && s.restart_timer);
    assert_eq!(s.mine_sprite, Some(MineSprite::Active));
    assert_eq!((m.miners_count, m.miners_ids[0]), (1, 4));
    let s = harvest_gold_step(Running(MINING), &mut m, 4, false, false);
    assert!(!s.spawn_gold);
    assert_eq!(m.remaining_gold, 2);
    let s = harvest_gold_step(Running(MINING), &mut m, 4, false, true);
    assert!(s.spawn_gold && s.restart_timer);
    assert_eq!(s.state, Running(MINING));
    assert_eq!(m.remaining_gold, 1);
    let s = harvest_gold_step(Running(MINING), &mut m, 4, false, true);
    assert_eq!(s.state, Running(DISABLE_MINE));
    assert_eq!(m.remaining_gold, 0);
    let s = harvest_gold_step(Running(DISABLE_MINE), &mut m, 4, false, false);
    assert!(s.respawn_pawns);
    assert_eq!(s.mine_sprite, Some(MineSprite::Destroyed));
    assert_eq!(m.miners_count, 0);
    let s = harvest_gold_step(Running(DISABLE_MINE), &mut m, 4, false, false);
    assert!(s.go_idle);
}

#[test]
fn gold_harvest_gives_up_on_full_or_empty_mine() {
    let mut empty = mine(0);
    assert!(harvest_gold_step(Running(MOVE_TO_MINE), &mut empty, 1, true, false).go_idle);
    let mut full = StructureGoldMineData { remaining_gold: 9, miners_count: 3, miners_ids: [1, 2, 3] };
    let s = harvest_gold_step(Running(ENTER_MINE), &mut full, 4, false, false);
    assert!(s.go_idle);
    assert_eq!(full.miners_count, 3);
}

#[test]
fn gold_harvest_cancel_leaves_the_mine() {
    let mut m = mine(5);
    m.enter(7);
    let s = harvest_gold_cancel(Running(MINING), &mut m, 7);
    assert_eq!(m.miners_count, 0);
    assert_eq!(s.mine_sprite, Some(MineSprite::Inactive));
    let mut m2 = mine(5);
    m2.enter(7);
    m2.enter(8);
    let s = harvest_gold_cancel(Running(MINING), &mut m2, 7);
    assert_eq!(m2.miners_count, 1);
    assert_eq!(s.mine_sprite, None);
    // Free slots hold 0 until a pawn takes them, and sort before the others.
    assert_eq!(m2.miners_ids, [0, 8, u32::MAX]);
}

#[test]
fn building_step_by_step() {
    let mut d = StructureData::Tower(StructureState { hp: 140, destroyed: false, building: true });
    let s = build_structure_step(Initial, &mut d, true, false);
    assert!(s.walk && s.hammer);
    assert_eq!(s.state, Running(BUILD_STRUCTURE));
    let s = build_structure_step(Running(BUILD_STRUCTURE), &mut d, false, false);
    assert_eq!(s.state, Running(BUILD_STRUCTURE));
    assert!(!s.restart_timer);
    let s = build_structure_step(Running(BUILD_STRUCTURE), &mut d, false, true);
    assert_eq!(s.state, Running(BUILD_STRUCTURE));
    assert!(matches!(d, StructureData::Tower(StructureState { hp: 145, .. })));
    let s = build_structure_step(Running(BUILD_STRUCTURE), &mut d, false, true);
    assert_eq!(s.state, Running(FINALIZE_STRUCTURE));
    assert!(matches!(d, StructureData::Tower(StructureState { hp: 150, .. })));
    let s = build_structure_step(Running(FINALIZE_STRUCTURE), &mut d, false, false);
    assert!(s.go_idle && s.completed);
    assert!(matches!(d, StructureData::Tower(StructureState { building: false, .. })));
    let s = build_structure_step(Running(MOVE_TO_STRUCTURE), &mut d, true, false);
    assert!(s.go_idle);
}

#[test]
fn wood_harvest_fells_the_tree() {
    let mut t = TreeData { life: 2, being_harvested: false };
    let s = harvest_wood_step(Initial, &mut t, true, false);
    assert!(s.walk);
    assert_eq!(s.state, Running(BEGIN_CUT_TREE));
    let s = harvest_wood_step(Running(BEGIN_CUT_TREE), &mut t, false, false);
    assert!(s.axe && s.restart_timer);
    assert!(t.being_harvested);
    assert_eq!(s.state, Running(CUT_TREE));
    let s = harvest_wood_step(Running(CUT_TREE), &mut t, false, true);
    assert_eq!((t.life, s.state), (1, Running(CUT_TREE)));
    let s = harvest_wood_step(Running(CUT_TREE), &mut t, false, true);
    assert_eq!((t.life, s.state), (0, Running(SPAWN_WOOD)));
    let s = harvest_wood_step(Running(SPAWN_WOOD), &mut t, false, false);
    assert!(s.stump && s.spawn_wood && s.go_idle);
    assert!(!t.being_harvested);
    let mut taken = TreeData { life: 3, being_harvested: true };
    assert!(harvest_wood_step(Running(MOVE_TO_TREE), &mut taken, true, false).go_idle);
}

#[test]
fn wood_harvest_cancel_frees_the_tree() {
    let mut t = TreeData { life: 3, being_harvested: true };
    let s = harvest_wood_cancel(Running(CUT_TREE), &mut t);
    assert!(s.idle_animations && !t.being_harvested);
    assert_eq!(t.life, 3);
}

#[test]
fn sheep_hunt_cycle() {
    let s = hunt_sheep_step(Initial, 10, true, false, false, false);
    assert!(s.walk && s.axe);
    assert_eq!(s.state, Running(ATTACK_SHEEP));
    let s = hunt_sheep_step(Running(ATTACK_SHEEP), 10, false, false, true, false);
    assert!(s.strike);
    let s = hunt_sheep_step(Running(ATTACK_SHEEP), 10, false, true, true, false);
    assert!(!s.strike && s.stand);
    assert_eq!(s.state, Running(PAUSE));
    let s = hunt_sheep_step(Running(PAUSE), 10, false, false, false, false);
    assert_eq!(s.state, Running(PAUSE));
    let s = hunt_sheep_step(Running(PAUSE), 10, false, false, false, true);
    assert_eq!(s.state, Running(MOVE_TO_SHEEP));
    assert!(s.walk);
    assert!(hunt_sheep_step(Running(ATTACK_SHEEP), 0, false, false, true, false).go_idle);
}

#[test]
fn grabbing_resources() {
    let mut r = ResourceData { resource_type: ResourceType::Gold, grabbed: false };
    let mut held = u32::MAX;
    let s = grab_resource_step(Initial, &mut r, &mut held, 6, true);
    assert!(s.walk);
    assert_eq!(s.state, Running(GRAB_RESOURCE));
    let s = grab_resource_step(Running(GRAB_RESOURCE), &mut r, &mut held, 6, false);
    assert!(s.picked_up && s.go_idle);
    assert!(r.grabbed);
    assert_eq!(held, 6);
    let mut other = u32::MAX;
    let s = grab_resource_step(Running(GRAB_RESOURCE), &mut r, &mut other, 6, false);
    assert!(!s.picked_up && s.go_idle);
    assert_eq!(other, u32::MAX);
    let s = grab_resource_step(Running(MOVE_TO_RESOURCE), &mut r, &mut other, 6, true);
    assert!(s.go_idle);
}

#[test]
fn resource_spots() {
    let mut b = SpawnResourceBehaviour::spawn(ResourceType::Food);
    assert_eq!(b.step(9, 4), SpawnStep::Start(ResourceType::Food));
    assert_eq!(b.step(2, 4), SpawnStep::Wait);
    assert_eq!(b.step(4, 4), SpawnStep::Create(ResourceType::Food));
}

#[test]
fn terrain_updates_offsets() {
    let mut flags = vec![true, false, true, true];
    let r = terrain_chunk_updates(&mut flags, &vec![10, 11, 12, 13], &vec![256, 256, 100, 5], 7);
    assert_eq!(
        r,
        vec![
            UpdateTerrainChunkParams { chunk_id: 10, chunk_data_offset: 7 },
            UpdateTerrainChunkParams { chunk_id: 12, chunk_data_offset: 263 },
            UpdateTerrainChunkParams { chunk_id: 13, chunk_data_offset: 363 },
        ]
    );
    assert_eq!(flags, vec![false; 4]);
    let mut none = vec![false, false];
    assert!(terrain_chunk_updates(&mut none, &vec![1, 2], &vec![3, 4], 0).is_empty());
}

fn obj(id: u32, ty: WorldObjectType) -> WorldObject {
    WorldObject { id, ty }
}

#[test]
fn pawn_tasks_allowed() {
    let pawn = obj(0, WorldObjectType::Pawn);
    let trees = vec![TreeData { life: 3, being_harvested: false }, TreeData { life: 3, being_harvested: true }];
    assert!(can_harvest_wood(pawn, 1, obj(0, WorldObjectType::Tree), &trees));
    assert!(!can_harvest_wood(pawn, 1, obj(1, WorldObjectType::Tree), &trees));
    assert!(!can_harvest_wood(pawn, 1, obj(2, WorldObjectType::Tree), &trees));
    assert!(!can_harvest_wood(pawn, 0, obj(0, WorldObjectType::Tree), &trees));
    assert!(!can_harvest_wood(obj(0, WorldObjectType::Warrior), 1, obj(0, WorldObjectType::Tree), &trees));
    let structures = vec![
        StructureData::GoldMine(mine(3)),
        StructureData::House(StructureState { hp: 10, destroyed: false, building: true }),
        StructureData::GoblinHut(StructureState { hp: 10, destroyed: false, building: false }),
    ];
    assert!(can_harvest_gold(pawn, 1, obj(0, WorldObjectType::Structure), &structures));
    assert!(!can_harvest_gold(pawn, 1, obj(1, WorldObjectType::Structure), &structures));
    assert!(can_build(pawn, 1, obj(1, WorldObjectType::Structure), &structures));
    assert!(!can_build(pawn, 1, obj(2, WorldObjectType::Structure), &structures));
    assert!(!can_build(pawn, 1, obj(0, WorldObjectType::Structure), &structures));
    let resources = vec![
        ResourceData { resource_type: ResourceType::Wood, grabbed: true },
        ResourceData { resource_type: ResourceType::Food, grabbed: false },
    ];
    assert!(!can_grab(pawn, 1, obj(0, WorldObjectType::Resource), &resources));
    assert!(can_grab(pawn, 1, obj(1, WorldObjectType::Resource), &resources));
    assert!(can_hunt(pawn, 1, obj(4, WorldObjectType::Sheep), 5));
    assert!(!can_hunt(pawn, 1, obj(5, WorldObjectType::Sheep), 5));
}

#[test]
fn idle_and_drop() {
    use_idle_and_drop();
}

fn use_idle_and_drop() {
    let (state, anim) = game::behaviour::pawn::idle_step(Initial, true);
    assert_eq!(state, Running(0));
    assert_eq!(anim, Some(game::actions::tasks::PawnAnimation::IdleHold));
    assert_eq!(game::behaviour::pawn::idle_step(Running(0), true), (Running(0), None));
    let mut resources = vec![
        ResourceData { resource_type: ResourceType::Wood, grabbed: false },
        ResourceData { resource_type: ResourceType::Gold, grabbed: true },
    ];
    let mut held = 1u32;
    assert_eq!(game::behaviour::pawn::drop_resource(&mut held, &mut resources), Some((1, ResourceType::Gold)));
    assert_eq!(held, u32::MAX);
    assert!(!resources[1].grabbed);
    assert_eq!(game::behaviour::pawn::drop_resource(&mut held, &mut resources), None);
}

#[test]
fn pawn_walks_its_path() {
    let mut paths: game::pathfinding::PathfindingState<(i32, i32)> = game::pathfinding::PathfindingState::new();
    let mut walk = paths.compute_new_path((0, 0), vec![(0, 0), (3, 0)], true).unwrap();
    let s = game::behaviour::pawn::pawn_move_step(Initial, false, false, &paths, &mut walk);
    assert_eq!(s.state, Running(game::behaviour::pawn::PAWN_MOVING));
    assert_eq!(s.animation, Some(game::actions::tasks::PawnAnimation::Walk));
    let s = game::behaviour::pawn::pawn_move_step(s.state, false, true, &paths, &mut walk);
    assert!(!s.go_idle);
    assert_eq!(walk.next_position, (3, 0));
    let s = game::behaviour::pawn::pawn_move_step(s.state, false, false, &paths, &mut walk);
    assert!(!s.go_idle);
    let s = game::behaviour::pawn::pawn_move_step(s.state, false, true, &paths, &mut walk);
    assert!(s.go_idle);
}
