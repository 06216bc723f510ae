use game::actions::base;
use game::actions::chain;
use game::world::{ResourceType, WorldObject, WorldObjectType};

fn pawn(id: u32) -> WorldObject {
    WorldObject { id, ty: WorldObjectType::Pawn }
}

fn tree(id: u32) -> WorldObject {
    WorldObject { id, ty: WorldObjectType::Tree }
}

#[test]
fn chain_action_constructors() {
    let a: chain::Action<(i32, i32)> = chain::Action::move_to(pawn(3), (10, 20));
    assert!(matches!(a.ty, chain::ActionType::MovePawn { id: 3, target: (10, 20) }));
    assert_eq!(a.next, u32::MAX);
    let b: chain::Action<(i32, i32)> = chain::Action::move_to(tree(3), (10, 20));
    assert!(b.is_completed());
    let c: chain::Action<(i32, i32)> = chain::Action::cut_tree(pawn(1), tree(2));
    assert!(matches!(c.ty, chain::ActionType::CutTree { pawn_id: 1, tree_id: 2 }));
    let d: chain::Action<(i32, i32)> = chain::Action::cut_tree(pawn(1), pawn(2));
    assert!(d.is_completed());
}

#[test]
fn chain_queued_action_follows_its_parent() {
    let mut m: chain::ActionsManager<(i32, i32)> = chain::ActionsManager::new();
    let walk = chain::Action::move_to(pawn(0), (5, 5));
    let cut = chain::Action::cut_tree(pawn(0), tree(9));
    m.push_and_queue(walk, cut);
    assert_eq!(m.active.len(), 1);
    assert_eq!(m.queued.len(), 1);
    assert_eq!(m.active[0].next, 0);
    m.settle_active(0);
    assert!(matches!(m.active[0].ty, chain::ActionType::MovePawn { .. }));
    m.active[0].state = chain::ActionState::Finalized;
    m.settle_active(0);
    assert!(matches!(m.active[0].ty, chain::ActionType::CutTree { pawn_id: 0, tree_id: 9 }));
    m.active[0].state = chain::ActionState::Finalized;
    m.settle_active(0);
    assert!(m.active[0].is_completed());
    assert_eq!(m.dirty_actions, 1);
}

#[test]
fn chain_queued_slot_is_reused() {
    let mut m: chain::ActionsManager<(i32, i32)> = chain::ActionsManager::new();
    let first = m.push_queued(chain::Action::cut_tree(pawn(0), tree(1)));
    let second = m.push_queued(chain::Action::cut_tree(pawn(0), tree(2)));
    assert_eq!((first, second), (0, 1));
    m.queued[0] = chain::Action::completed();
    let third = m.push_queued(chain::Action::cut_tree(pawn(0), tree(3)));
    assert_eq!(third, 0);
    assert_eq!(m.queued.len(), 2);
}

#[test]
fn chain_cancel_clears_the_pawn() {
    let mut m: chain::ActionsManager<(i32, i32)> = chain::ActionsManager::new();
    m.push_and_queue(chain::Action::move_to(pawn(0), (1, 1)), chain::Action::cut_tree(pawn(0), tree(4)));
    m.push(chain::Action::move_to(pawn(1), (2, 2)));
    m.cancel_object_actions(pawn(0));
    assert!(m.active[0].is_completed());
    assert!(!m.active[1].is_completed());
    assert!(m.queued[0].is_completed());
    assert_eq!(m.cancelled.len(), 1);
    assert_eq!(m.dirty_actions, 1);
    m.cancel_object_actions(tree(4));
    assert_eq!(m.cancelled.len(), 1);
    m.clean();
    assert_eq!(m.active.len(), 1);
    assert_eq!(m.dirty_actions, 0);
    assert!(!m.needs_clean());
}

#[test]
fn base_incompatibility() {
    let mv0: base::Action<(i32, i32)> = base::Action::from_type(base::ActionType::MoveActor { actor: pawn(0), target_position: (1, 1) });
    let mv0b: base::Action<(i32, i32)> = base::Action::from_type(base::ActionType::MoveActor { actor: pawn(0), target_position: (2, 2) });
    let cut0: base::Action<(i32, i32)> = base::Action::from_type(base::ActionType::CutTree { pawn_id: 0, tree_id: 5 });
    let grab1: base::Action<(i32, i32)> = base::Action::from_type(base::ActionType::GrabResource { pawn_id: 1, resource_id: 2 });
    let spawn: base::Action<(i32, i32)> = base::Action::from_type(base::ActionType::SpawnResource { spawn_id: 0, resource_type: ResourceType::Gold });
    assert!(mv0.is_incompatible(mv0b));
    assert!(mv0b.is_incompatible(mv0));
    assert!(mv0.is_incompatible(cut0));
    assert!(cut0.is_incompatible(mv0));
    assert!(!grab1.is_incompatible(mv0));
    assert!(!spawn.is_incompatible(mv0));
    let nop: base::Action<(i32, i32)> = base::Action::nop();
    assert!(!nop.is_incompatible(mv0));
    assert!(!mv0.is_incompatible(nop));
    assert!(nop.is_done());
    assert_eq!(nop.running_value(), 255);
    let mut running = cut0;
    running.state = base::ActionState::Running(4);
    assert_eq!(running.running_value(), 4);
}

#[test]
fn base_new_action_replaces_conflicting_ones() {
    let mut m: base::ActionsManager<(i32, i32)> = base::ActionsManager::new();
    let mut buffer: base::ActionsBuffer<(i32, i32)> = base::ActionsBuffer::new();
    buffer.push(base::Action::from_type(base::ActionType::MoveActor { actor: pawn(0), target_position: (1, 1) }));
    buffer.push2(
        base::Action::from_type(base::ActionType::MoveActor { actor: pawn(1), target_position: (1, 1) }),
        base::Action::from_type(base::ActionType::CutTree { pawn_id: 0, tree_id: 3 }),
    );
    m.update_actions_from_buffer(&mut buffer);
    assert!(buffer.new.is_empty());
    assert_eq!(m.active.len(), 3);
    assert!(matches!(m.active[0].ty, base::ActionType::Nop));
    assert!(matches!(m.active[1].ty, base::ActionType::MoveActor { .. }));
    assert!(matches!(m.active[2].ty, base::ActionType::CutTree { .. }));
    assert_eq!(m.completed_actions, 1);
    let cancelled = m.take_cancelled();
    assert_eq!(cancelled.len(), 1);
    assert!(matches!(cancelled[0].ty, base::ActionType::MoveActor { .. }));
    assert!(m.to_cancel.is_empty());
}

#[test]
fn base_finish_and_clean() {
    let mut m: base::ActionsManager<(i32, i32)> = base::ActionsManager::new();
    for i in 0..20u32 {
        m.push_filtered(base::Action::from_type(base::ActionType::GrabResource { pawn_id: i, resource_id: i }));
    }
    for i in 0..17usize {
        let mut a = m.active[i];
        a.state = base::ActionState::Done;
        m.finish_processing(i, a);
    }
    assert_eq!(m.completed_actions, 17);
    m.clean_if_needed();
    assert_eq!(m.active.len(), 3);
    assert_eq!(m.completed_actions, 17);
}

#[test]
fn chain_action_type_equality() {
    let a: chain::ActionType<(i32, i32)> = chain::ActionType::MovePawn { id: 1, target: (0, 0) };
    let b: chain::ActionType<(i32, i32)> = chain::ActionType::MovePawn { id: 1, target: (5, 5) };
    let c: chain::ActionType<(i32, i32)> = chain::ActionType::MovePawn { id: 2, target: (0, 0) };
    let cut: chain::ActionType<(i32, i32)> = chain::ActionType::CutTree { pawn_id: 1, tree_id: 1 };
    let done: chain::ActionType<(i32, i32)> = chain::ActionType::Completed;
    assert!(a == b);
    assert!(a != c);
    assert!(cut != cut);
    assert!(done == chain::ActionType::Completed);
    assert!(done != a);
}

#[test]
fn chain_move_and_cut_steps() {
    let s = chain::move_pawn_step(chain::ActionState::Initial, false);
    assert_eq!(s.state, chain::ActionState::Running);
    assert!(s.walk);
    assert_eq!(chain::move_pawn_step(chain::ActionState::Running, false).state, chain::ActionState::Running);
    assert_eq!(chain::move_pawn_step(chain::ActionState::Running, true).state, chain::ActionState::Finalizing);
    let s = chain::move_pawn_step(chain::ActionState::Finalizing, false);
    assert_eq!(s.state, chain::ActionState::Finalized);
    assert!(s.idle);

    let mut tree = game::world::TreeData { life: 1, being_harvested: false };
    let s = chain::cut_tree_step(chain::ActionState::Initial, true, &mut tree, false);
    assert_eq!(s.state, chain::ActionState::Running);
    assert!(s.axe && tree.being_harvested);
    let s = chain::cut_tree_step(chain::ActionState::Running, true, &mut tree, true);
    assert_eq!(s.state, chain::ActionState::Finalizing);
    assert_eq!(tree.life, 0);
    let s = chain::cut_tree_step(chain::ActionState::Finalizing, true, &mut tree, false);
    assert_eq!(s.state, chain::ActionState::Finalized);
    assert!(s.fell && !tree.being_harvested);
    let mut other = game::world::TreeData { life: 5, being_harvested: true };
    assert_eq!(chain::cut_tree_step(chain::ActionState::Initial, true, &mut other, false).state, chain::ActionState::Finalizing);
    assert_eq!(chain::cut_tree_step(chain::ActionState::Running, false, &mut other, true).state, chain::ActionState::Finalized);
    assert_eq!(other.life, 5);
}

#[test]
fn moves_of_different_units_with_one_id() {
    let warrior = WorldObject { id: 3, ty: WorldObjectType::Warrior };
    let old: base::Action<(f32, f32)> =
        base::Action::from_type(base::ActionType::MoveActor { actor: warrior, target_position: (0.0, 0.0) });
    let new: base::Action<(f32, f32)> =
        base::Action::from_type(base::ActionType::MoveActor { actor: pawn(3), target_position: (5.0, 5.0) });
    assert!(!old.is_incompatible(new));
    assert!(!new.is_incompatible(old));
    let again: base::Action<(f32, f32)> =
        base::Action::from_type(base::ActionType::MoveActor { actor: warrior, target_position: (1.0, 1.0) });
    assert!(old.is_incompatible(again));
    let cut: base::Action<(f32, f32)> = base::Action::from_type(base::ActionType::CutTree { pawn_id: 3, tree_id: 7 });
    assert!(!old.is_incompatible(cut));
    assert!(!cut.is_incompatible(old));
    assert!(new.is_incompatible(cut));
}
