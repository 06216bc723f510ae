use game::behaviour::combat::{
    archer_shoot_step, can_attack, strike_sheep, warrior_strike_step, AimDirection, ArcherAnimation, StrikeOutcome,
    WarriorAnimation,
};
use game::behaviour::structures::{
    early_exit, StructureData, StructureGoldMineData, StructureState, MAX_CASTLE_HP, MAX_HOUSE_HP,
};
use game::behaviour::{BehaviourState, SpawnResourceBehaviour};
use game::behaviour::combat::{
    archer_attack_step, warrior_attack_step, ARCHER_MOVING, ARCHER_PAUSE, ARCHER_SHOOTING, WARRIOR_MOVING, WARRIOR_PAUSE,
    WARRIOR_STRIKE,
};
use game::world::{ResourceType, WorldObject, WorldObjectType};

use game::assets::sprites::StructureSlot;
use game::behaviour::structures::damage_structure;

fn state(hp: u8) -> StructureState {
    StructureState { hp, destroyed: false, building: true }
}

#[test]
fn damage_floors_at_zero_and_destroys() {
    let mut castle = StructureData::Castle(state(30));
    assert!(!castle.damage(10));
    assert!(matches!(castle, StructureData::Castle(StructureState { hp: 20, destroyed: false, .. })));
    assert!(castle.damage(50));
    assert!(matches!(castle, StructureData::Castle(StructureState { hp: 0, destroyed: true, .. })));
    assert!(castle.damage(1));
    let mut mine = StructureData::GoldMine(StructureGoldMineData { remaining_gold: 5, miners_count: 0, miners_ids: [0; 3] });
    assert!(!mine.damage(255));
    assert!(matches!(mine, StructureData::GoldMine(StructureGoldMineData { remaining_gold: 5, .. })));
}

#[test]
fn enemies_are_goblin_huts() {
    assert!(StructureData::GoblinHut(state(1)).is_enemy());
    assert!(!StructureData::House(state(1)).is_enemy());
}

#[test]
fn building_reaches_max_and_stops() {
    let mut house = StructureData::House(state(MAX_HOUSE_HP - 7));
    assert!(house.can_be_built());
    assert!(!early_exit(house));
    assert!(!house.repair_step());
    assert!(matches!(house, StructureData::House(StructureState { hp: 98, .. })));
    assert!(house.repair_step());
    assert!(matches!(house, StructureData::House(StructureState { hp: 100, .. })));
    assert!(early_exit(house));
    assert!(!house.can_be_built());
    house.finish_building();
    assert!(matches!(house, StructureData::House(StructureState { building: false, .. })));
    assert_eq!(house.max_hp(), Some(MAX_HOUSE_HP));
    assert_eq!(StructureData::Castle(state(0)).max_hp(), Some(MAX_CASTLE_HP));
    assert!(early_exit(StructureData::GoblinHut(state(0))));
    assert_eq!(StructureData::GoblinHut(state(0)).max_hp(), None);
}

#[test]
fn gold_mine_slots() {
    let mut m = StructureGoldMineData { remaining_gold: 2, miners_count: 0, miners_ids: [0; 3] };
    assert!(m.can_be_mined());
    m.enter(7);
    m.enter(3);
    m.enter(5);
    assert_eq!(m.miners_ids, [7, 3, 5]);
    assert!(!m.can_be_mined());
    m.leave(3);
    assert_eq!(m.miners_count, 2);
    assert_eq!(m.miners_ids, [5, 7, u32::MAX]);
    m.mine_one();
    m.mine_one();
    assert_eq!(m.remaining_gold, 0);
    assert!(!m.can_be_mined());
    m.disable();
    assert_eq!(m.miners_count, 0);
    assert_eq!(m.miners_ids, [0, 0, 0]);
}

#[test]
fn sheep_strikes() {
    assert_eq!(strike_sheep(10, 3), (7, StrikeOutcome::Escaping));
    for (life, damage) in [(3u8, 10u8), (5, 5), (1, 255)] {
        let (left, outcome) = strike_sheep(life, damage);
        assert_eq!(left, 0);
        match outcome {
            StrikeOutcome::Dead { drop_angles: a } => {
                assert!((120..180).contains(&a[0]));
                assert!((120..180).contains(&(a[1] - a[0])));
                assert!((120..180).contains(&(a[2] - a[1])));
            }
            StrikeOutcome::Escaping => panic!("a sheep with no life left must die"),
        }
    }
}

#[test]
fn attack_targets() {
    let warrior = WorldObject { id: 0, ty: WorldObjectType::Warrior };
    let sheep = WorldObject { id: 1, ty: WorldObjectType::Sheep };
    let hut = WorldObject { id: 0, ty: WorldObjectType::Structure };
    let house = WorldObject { id: 1, ty: WorldObjectType::Structure };
    let structures = vec![StructureData::GoblinHut(state(10)), StructureData::House(state(10))];
    assert!(can_attack(warrior, WorldObjectType::Warrior, 1, sheep, 2, &structures));
    assert!(!can_attack(warrior, WorldObjectType::Warrior, 1, sheep, 1, &structures));
    assert!(can_attack(warrior, WorldObjectType::Warrior, 1, hut, 0, &structures));
    assert!(!can_attack(warrior, WorldObjectType::Warrior, 1, house, 0, &structures));
    assert!(!can_attack(warrior, WorldObjectType::Archer, 1, sheep, 2, &structures));
    assert!(!can_attack(warrior, WorldObjectType::Warrior, 0, sheep, 2, &structures));
}

#[test]
fn warrior_strike_frames() {
    let s = warrior_strike_step(true, true, false, 5, true, true);
    assert_eq!(s.animation, WarriorAnimation::Idle);
    assert!(s.pause && s.reset_frame && !s.hit);
    let s = warrior_strike_step(false, true, false, 2, false, false);
    assert_eq!(s.animation, WarriorAnimation::FirstSwing);
    assert_eq!(s.flipped, Some(false));
    let s = warrior_strike_step(false, false, true, 5, false, true);
    assert_eq!(s.animation, WarriorAnimation::SecondSwing);
    assert!(s.hit && !s.pause);
    assert_eq!(s.flipped, Some(true));
    let s = warrior_strike_step(false, true, true, 5, true, false);
    assert_eq!(s.animation, WarriorAnimation::Idle);
    assert!(s.pause && !s.hit);
}

#[test]
fn archer_shoot_frames() {
    let s = archer_shoot_step(true, AimDirection::Top, false, 7, true);
    assert_eq!(s.animation, ArcherAnimation::Idle);
    assert!(!s.spawn_arrow && s.pause);
    let s = archer_shoot_step(false, AimDirection::BottomLeft, true, 3, true);
    assert_eq!(s.animation, ArcherAnimation::FireBottomHorizontal);
    assert_eq!(s.flipped, Some(true));
    assert!(!s.spawn_arrow);
    let s = archer_shoot_step(false, AimDirection::Right, false, 7, true);
    assert!(s.spawn_arrow && s.pause && s.reset_frame);
    let s = archer_shoot_step(false, AimDirection::Top, false, 7, false);
    assert_eq!(s.animation, ArcherAnimation::FireTop);
    assert!(!s.spawn_arrow);
}

#[test]
fn behaviour_state_codes() {
    assert_eq!(BehaviourState::Initial.save(), 0);
    assert_eq!(BehaviourState::Running(0).save(), 256);
    assert_eq!(BehaviourState::Running(3).save(), 259);
    assert_eq!(BehaviourState::Running(255).save(), 511);
    assert_eq!(BehaviourState::load(0), BehaviourState::Initial);
    assert_eq!(BehaviourState::load(BehaviourState::Running(0).save()), BehaviourState::Running(0));
    assert_eq!(BehaviourState::load(BehaviourState::Running(3).save()), BehaviourState::Running(3));
    assert_eq!(BehaviourState::load(BehaviourState::Running(255).save()), BehaviourState::Running(255));
    assert_eq!(BehaviourState::load(0x1_05), BehaviourState::Running(5));
}

#[test]
fn spawn_behaviour() {
    let b = SpawnResourceBehaviour::spawn(ResourceType::Wood);
    assert!(b.init);
    assert_eq!(b.resource_type, ResourceType::Wood);
}

#[test]
fn target_lives_and_blows() {
    use_blows();
}

fn use_blows() {
    let sheep_lives = vec![7, 0];
    let structures = vec![
        StructureData::Tower(state(42)),
        StructureData::GoldMine(StructureGoldMineData { remaining_gold: 9, miners_count: 0, miners_ids: [0; 3] }),
    ];
    let sheep = WorldObject { id: 0, ty: WorldObjectType::Sheep };
    let tower = WorldObject { id: 0, ty: WorldObjectType::Structure };
    let mine = WorldObject { id: 1, ty: WorldObjectType::Structure };
    assert_eq!(game::behaviour::combat::target_life(sheep, &sheep_lives, &structures), 7);
    assert_eq!(game::behaviour::combat::target_life(tower, &sheep_lives, &structures), 42);
    assert_eq!(game::behaviour::combat::target_life(mine, &sheep_lives, &structures), 0);
    assert_eq!(game::behaviour::combat::warrior_blow(sheep), game::behaviour::combat::Blow::Sheep(5));
    assert_eq!(game::behaviour::combat::warrior_blow(tower), game::behaviour::combat::Blow::Structure(5));
    assert_eq!(game::behaviour::combat::arrow_blow(tower), game::behaviour::combat::Blow::Structure(3));
    assert_eq!(
        game::behaviour::combat::arrow_blow(WorldObject { id: 0, ty: WorldObjectType::Tree }),
        game::behaviour::combat::Blow::Nothing
    );
}

#[test]
fn warrior_attack_frames() {
    let a = warrior_attack_step(BehaviourState::Initial, 10, false, false, false, true, false, 0, false, false);
    assert!(a.walk);
    assert_eq!(a.state, BehaviourState::Running(WARRIOR_MOVING));
    let a = warrior_attack_step(BehaviourState::Running(WARRIOR_MOVING), 10, false, true, false, true, false, 0, false, false);
    assert_eq!(a.state, BehaviourState::Running(WARRIOR_STRIKE));
    assert!(a.reset_frame && a.restart_timer);
    let a = warrior_attack_step(BehaviourState::Running(WARRIOR_STRIKE), 10, true, false, false, true, true, 5, true, true);
    assert_eq!(a.state, BehaviourState::Running(WARRIOR_PAUSE));
    assert!(a.restart_timer);
    assert!(a.strike.unwrap().hit);
    let a = warrior_attack_step(BehaviourState::Running(WARRIOR_PAUSE), 10, true, false, false, true, true, 5, true, true);
    assert_eq!(a.state, BehaviourState::Running(WARRIOR_PAUSE));
    assert!(a.strike.is_none());
    let a = warrior_attack_step(BehaviourState::Running(WARRIOR_PAUSE), 10, true, false, true, true, true, 5, true, true);
    assert_eq!(a.state, BehaviourState::Running(WARRIOR_STRIKE));
    let s = a.strike.unwrap();
    assert_eq!(s.animation, WarriorAnimation::FirstSwing);
    assert!(s.hit && !s.pause);
    assert!(warrior_attack_step(BehaviourState::Running(WARRIOR_STRIKE), 0, true, false, false, true, true, 5, true, true).go_idle);
}

#[test]
fn archer_attack_frames() {
    let a = archer_attack_step(BehaviourState::Initial, 10, true, false, false, AimDirection::Left, true, 7, true);
    assert!(a.walk && a.reset_frame);
    assert_eq!(a.state, BehaviourState::Running(ARCHER_MOVING));
    let a = archer_attack_step(BehaviourState::Initial, 10, false, false, false, AimDirection::Left, true, 7, true);
    assert_eq!(a.state, BehaviourState::Running(ARCHER_SHOOTING));
    assert!(!a.shot.unwrap().spawn_arrow);
    let a = archer_attack_step(BehaviourState::Running(ARCHER_MOVING), 10, true, true, false, AimDirection::Left, true, 3, false);
    assert_eq!(a.state, BehaviourState::Running(ARCHER_SHOOTING));
    let a = archer_attack_step(BehaviourState::Running(ARCHER_SHOOTING), 10, false, false, false, AimDirection::Left, true, 7, true);
    assert_eq!(a.state, BehaviourState::Running(ARCHER_PAUSE));
    assert!(a.shot.unwrap().spawn_arrow && a.restart_timer);
    assert!(archer_attack_step(BehaviourState::Running(ARCHER_SHOOTING), 0, false, false, false, AimDirection::Left, true, 7, true).go_idle);
}

#[test]
fn arrows_are_cleaned_with_their_data() {
    let deleted = vec![false, true, true, false];
    assert_eq!(game::behaviour::arrows::count_deleted(&deleted), 2);
    assert!(!game::behaviour::arrows::should_clean_arrows(16));
    assert!(game::behaviour::arrows::should_clean_arrows(17));
    let mut arrows = vec![10, 11, 12, 13];
    let mut data = vec!['a', 'b', 'c', 'd'];
    game::behaviour::arrows::retain_live(&mut arrows, &mut data, &deleted);
    assert_eq!(arrows, vec![10, 13]);
    assert_eq!(data, vec!['a', 'd']);
}

#[test]
fn destroyed_structure_sprites() {
    assert_eq!(StructureData::Castle(state(5)).destroyed_sprite(), Some(StructureSlot::KnightsCastleDestroyed));
    assert_eq!(StructureData::Tower(state(5)).destroyed_sprite(), Some(StructureSlot::KnightsTowerDestroyed));
    assert_eq!(StructureData::House(state(5)).destroyed_sprite(), Some(StructureSlot::KnightsHouseDestroyed));
    assert_eq!(StructureData::GoblinHut(state(5)).destroyed_sprite(), Some(StructureSlot::GoblinHouseDestroyed));
    let mine = StructureGoldMineData { remaining_gold: 5, miners_count: 0, miners_ids: [0; 3] };
    assert_eq!(StructureData::GoldMine(mine).destroyed_sprite(), None);

    let mut all = vec![StructureData::House(state(10)), StructureData::GoblinHut(state(4)), StructureData::GoldMine(mine)];
    assert_eq!(damage_structure(&mut all, 0, 3), None);
    assert!(matches!(all[0], StructureData::House(StructureState { hp: 7, destroyed: false, .. })));
    assert_eq!(damage_structure(&mut all, 1, 9), Some(StructureSlot::GoblinHouseDestroyed));
    assert!(matches!(all[1], StructureData::GoblinHut(StructureState { hp: 0, destroyed: true, .. })));
    assert_eq!(damage_structure(&mut all, 2, 255), None);
    assert!(matches!(all[2], StructureData::GoldMine(StructureGoldMineData { remaining_gold: 5, .. })));
    assert_eq!(damage_structure(&mut all, 3, 1), None);
    assert_eq!(all.len(), 3);
}
