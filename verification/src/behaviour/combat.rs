//! The decisions of units that fight: whom they may attack, and what each
//! frame of an attack does.
use vstd::prelude::*;
use crate::world::{WorldObject, WorldObjectType};
use super::structures::{StructureData, is_enemy, state_of};
use super::BehaviourState;
use crate::random::drop_angles_degrees;

verus! {

/// Whether `target` is something a unit may attack: a sheep that exists,
/// or an enemy structure. Other objects are not refused here.
pub open spec fn target_ok(target: WorldObject, sheep_count: int, structures: Seq<StructureData>) -> bool {
    match target.ty {
        WorldObjectType::Sheep => target.id < sheep_count,
        WorldObjectType::Structure => target.id < structures.len() && is_enemy(structures[target.id as int]),
        _ => true,
    }
}

/// Whether `attacker`, of kind `kind` among `attacker_count` such units, may
/// start attacking `target`.
pub fn can_attack(
    attacker: WorldObject,
    kind: WorldObjectType,
    attacker_count: usize,
    target: WorldObject,
    sheep_count: usize,
    structures: &Vec<StructureData>,
) -> (b: bool)
    ensures
        b == (target_ok(target, sheep_count as int, structures@) && attacker.ty == kind
            && attacker.id < attacker_count),
{
    let target_index = target.id as usize;
    let target_invalid = match target.ty {
        WorldObjectType::Sheep => target_index >= sheep_count,
        WorldObjectType::Structure => {
            !(target_index < structures.len() && structures[target_index].is_enemy())
        },
        _ => false,
    };
    !(target_invalid || attacker.ty != kind || (attacker.id as usize) >= attacker_count)
}

/// What happens to a sheep that is struck.
#[derive(Debug, Clone, Copy, PartialEq, Eq)]
pub enum StrikeOutcome {
    /// No life left: the sheep dies and drops three food items, 64 units
    /// away from it, in these directions (degrees, each further round than
    /// the one before).
    Dead { drop_angles: [u16; 3] },
    /// The sheep runs away.
    Escaping,
}

/// A sheep with `life` struck for `damage`: its life left, down to zero, and
/// what it does. A dead sheep drops three food items; each one's direction
/// turns between 120 and 179 degrees further than the one before.
pub fn strike_sheep(life: u8, damage: u8) -> (r: (u8, StrikeOutcome))
    ensures
        r.0 == (if damage >= life { 0 } else { life - damage }),
        (r.0 == 0) == (r.1 is Dead),
        r.1 is Dead ==> {
            let a = r.1->drop_angles;
            &&& 120 <= a[0] < 180
            &&& 120 <= a[1] - a[0] < 180
            &&& 120 <= a[2] - a[1] < 180
        },
{
    let left = life - if life < damage { life } else { damage };
    if left == 0 {
        (left, StrikeOutcome::Dead { drop_angles: drop_angles_degrees() })
    } else {
        (left, StrikeOutcome::Escaping)
    }
}

/// The animation of a warrior during an attack.
#[derive(Debug, Clone, Copy, PartialEq, Eq, Structural)]
pub enum WarriorAnimation {
    Idle,
    FirstSwing,
    SecondSwing,
}

/// What one frame of a warrior's strike does.
#[derive(Debug, Clone, Copy, PartialEq, Eq, Structural)]
pub struct StrikeStep {
    pub animation: WarriorAnimation,
    /// The sprite faces left; unchanged when `None`.
    pub flipped: Option<bool>,
    /// The animation starts again at its first frame.
    pub reset_frame: bool,
    /// The warrior pauses, and the strike timer starts again.
    pub pause: bool,
    /// The target takes damage, and the damage timer starts again.
    pub hit: bool,
}

/// What one frame of a warrior's strike does; see `warrior_strike_step`.
pub open spec fn strike_next(
    out_of_range: bool,
    target_to_right: bool,
    first_swing_over: bool,
    current_frame: u8,
    strike_over: bool,
    damage_ready: bool,
) -> StrikeStep {
    if out_of_range {
        StrikeStep { animation: WarriorAnimation::Idle, flipped: None, reset_frame: true, pause: true, hit: false }
    } else {
        StrikeStep {
            animation: if current_frame == 5 && strike_over {
                WarriorAnimation::Idle
            } else if first_swing_over {
                WarriorAnimation::SecondSwing
            } else {
                WarriorAnimation::FirstSwing
            },
            flipped: Some(!target_to_right),
            reset_frame: false,
            pause: current_frame == 5 && strike_over,
            hit: current_frame == 5 && damage_ready,
        }
    }
}

/// One frame of a warrior's strike. The warrior pauses when the target is
/// out of reach; otherwise it swings at it (the second swing once the first
/// lasted long enough), and at the last frame of the swing it pauses once the
/// whole strike is over and hits when the damage timer ran out.
pub fn warrior_strike_step(
    out_of_range: bool,
    target_to_right: bool,
    first_swing_over: bool,
    current_frame: u8,
    strike_over: bool,
    damage_ready: bool,
) -> (s: StrikeStep)
    ensures
        s == strike_next(out_of_range, target_to_right, first_swing_over, current_frame, strike_over, damage_ready),
        out_of_range ==> s == (StrikeStep {
            animation: WarriorAnimation::Idle,
            flipped: None,
            reset_frame: true,
            pause: true,
            hit: false,
        }),
        !out_of_range ==> s == (StrikeStep {
            animation: if current_frame == 5 && strike_over {
                WarriorAnimation::Idle
            } else if first_swing_over {
                WarriorAnimation::SecondSwing
            } else {
                WarriorAnimation::FirstSwing
            },
            flipped: Some(!target_to_right),
            reset_frame: false,
            pause: current_frame == 5 && strike_over,
            hit: current_frame == 5 && damage_ready,
        }),
{
    if out_of_range {
        return StrikeStep {
            animation: WarriorAnimation::Idle,
            flipped: None,
            reset_frame: true,
            pause: true,
            hit: false,
        };
    }
    let mut animation = if first_swing_over {
        WarriorAnimation::SecondSwing
    } else {
        WarriorAnimation::FirstSwing
    };
    let mut pause = false;
    let mut hit = false;
    if current_frame == 5 {
        if strike_over {
            animation = WarriorAnimation::Idle;
            pause = true;
        }
        if damage_ready {
            hit = true;
        }
    }
    StrikeStep { animation, flipped: Some(!target_to_right), reset_frame: false, pause, hit }
}

/// The eight directions an archer aims in, from the angle towards its target.
#[derive(Debug, Clone, Copy, PartialEq, Eq, Structural)]
pub enum AimDirection {
    Top,
    TopLeft,
    TopRight,
    Left,
    Right,
    BottomLeft,
    BottomRight,
    Bottom,
}

/// The animation of an archer while shooting.
#[derive(Debug, Clone, Copy, PartialEq, Eq, Structural)]
pub enum ArcherAnimation {
    Idle,
    FireTop,
    FireTopHorizontal,
    FireHorizontal,
    FireBottomHorizontal,
    FireBottom,
}

/// The animation for an aim direction.
pub open spec fn aim_animation(d: AimDirection) -> ArcherAnimation {
    match d {
        AimDirection::Top => ArcherAnimation::FireTop,
        AimDirection::Bottom => ArcherAnimation::FireBottom,
        AimDirection::BottomLeft | AimDirection::BottomRight => ArcherAnimation::FireBottomHorizontal,
        AimDirection::TopLeft | AimDirection::TopRight => ArcherAnimation::FireTopHorizontal,
        AimDirection::Left | AimDirection::Right => ArcherAnimation::FireHorizontal,
    }
}

/// What one frame of an archer's shooting does.
#[derive(Debug, Clone, Copy, PartialEq, Eq, Structural)]
pub struct ShootStep {
    pub animation: ArcherAnimation,
    /// The sprite faces left; unchanged when `None`.
    pub flipped: Option<bool>,
    /// The animation starts again at its first frame.
    pub reset_frame: bool,
    /// The archer pauses, and its timer starts again.
    pub pause: bool,
    /// An arrow leaves towards the target.
    pub spawn_arrow: bool,
}

/// One frame of an archer's shooting. The archer pauses when the target is
/// out of range; otherwise it aims towards it, and once the last frame of the
/// draw is reached and the draw lasted long enough, it looses an arrow and pauses.
pub fn archer_shoot_step(
    out_of_range: bool,
    aim: AimDirection,
    target_to_left: bool,
    current_frame: u8,
    draw_over: bool,
) -> (s: ShootStep)
    ensures
        s == shoot_next(out_of_range, aim, target_to_left, current_frame, draw_over),
        out_of_range ==> s == (ShootStep {
            animation: ArcherAnimation::Idle,
            flipped: None,
            reset_frame: true,
            pause: true,
            spawn_arrow: false,
        }),
        !out_of_range && current_frame == 7 && draw_over ==> s == (ShootStep {
            animation: ArcherAnimation::Idle,
            flipped: Some(target_to_left),
            reset_frame: true,
            pause: true,
            spawn_arrow: true,
        }),
        !out_of_range && !(current_frame == 7 && draw_over) ==> s == (ShootStep {
            animation: aim_animation(aim),
            flipped: Some(target_to_left),
            reset_frame: false,
            pause: false,
            spawn_arrow: false,
        }),
{
    if out_of_range {
        return ShootStep {
            animation: ArcherAnimation::Idle,
            flipped: None,
            reset_frame: true,
            pause: true,
            spawn_arrow: false,
        };
    }
    let animation = match aim {
        AimDirection::Top => ArcherAnimation::FireTop,
        AimDirection::Bottom => ArcherAnimation::FireBottom,
        AimDirection::BottomLeft | AimDirection::BottomRight => ArcherAnimation::FireBottomHorizontal,
        AimDirection::TopLeft | AimDirection::TopRight => ArcherAnimation::FireTopHorizontal,
        AimDirection::Left | AimDirection::Right => ArcherAnimation::FireHorizontal,
    };
    if current_frame == 7 && draw_over {
        return ShootStep {
            animation: ArcherAnimation::Idle,
            flipped: Some(target_to_left),
            reset_frame: true,
            pause: true,
            spawn_arrow: true,
        };
    }
    ShootStep { animation, flipped: Some(target_to_left), reset_frame: false, pause: false, spawn_arrow: false }
}

/// The life of a structure as a target: its hit points; a gold mine has none.
pub open spec fn structure_life(data: StructureData) -> u8 {
    match data {
        StructureData::GoldMine(_) => 0,
        _ => state_of(data).hp,
    }
}

/// The life left to `target`, a sheep or a structure, given the life of each
/// sheep and the structures.
pub fn target_life(target: WorldObject, sheep_lives: &Vec<u8>, structures: &Vec<StructureData>) -> (life: u8)
    requires
        target.ty == WorldObjectType::Sheep ==> target.id < sheep_lives@.len(),
        target.ty == WorldObjectType::Structure ==> target.id < structures@.len(),
        target.ty == WorldObjectType::Sheep || target.ty == WorldObjectType::Structure,
    ensures
        target.ty == WorldObjectType::Sheep ==> life == sheep_lives@[target.id as int],
        target.ty == WorldObjectType::Structure ==> life == structure_life(structures@[target.id as int]),
{
    let index = target.id as usize;
    if target.ty == WorldObjectType::Sheep {
        sheep_lives[index]
    } else {
        match structures[index] {
            StructureData::Castle(d) => d.hp,
            StructureData::Tower(d) => d.hp,
            StructureData::House(d) => d.hp,
            StructureData::GoblinHut(d) => d.hp,
            StructureData::GoldMine(_) => 0,
        }
    }
}

/// What a blow hits.
#[derive(Debug, Clone, Copy, PartialEq, Eq, Structural)]
pub enum Blow {
    /// A sheep, for this much damage.
    Sheep(u8),
    /// A structure, for this much damage.
    Structure(u8),
    /// Nothing that takes damage.
    Nothing,
}

/// The blow of a warrior's strike on `target`: five points of damage to a
/// sheep or a structure.
pub fn warrior_blow(target: WorldObject) -> (b: Blow)
    ensures
        b == (match target.ty {
            WorldObjectType::Sheep => Blow::Sheep(5),
            WorldObjectType::Structure => Blow::Structure(5),
            _ => Blow::Nothing,
        }),
{
    match target.ty {
        WorldObjectType::Sheep => Blow::Sheep(5),
        WorldObjectType::Structure => Blow::Structure(5),
        _ => Blow::Nothing,
    }
}

/// The blow of an arrow that reached `target`: five points of damage to a
/// sheep, three to a structure.
pub fn arrow_blow(target: WorldObject) -> (b: Blow)
    ensures
        b == (match target.ty {
            WorldObjectType::Sheep => Blow::Sheep(5),
            WorldObjectType::Structure => Blow::Structure(3),
            _ => Blow::Nothing,
        }),
{
    match target.ty {
        WorldObjectType::Sheep => Blow::Sheep(5),
        WorldObjectType::Structure => Blow::Structure(3),
        _ => Blow::Nothing,
    }
}

/// Walking to the target.
pub const WARRIOR_MOVING: u8 = 0;
/// Striking the target.
pub const WARRIOR_STRIKE: u8 = 1;
/// Waiting before attacking again.
pub const WARRIOR_PAUSE: u8 = 2;

/// What one frame of a warrior's attack does.
#[derive(Debug, Clone, Copy, PartialEq, Eq, Structural)]
pub struct WarriorAttackStep {
    /// The state of the behaviour after the frame.
    pub state: BehaviourState,
    /// The target is dead: the warrior idles.
    pub go_idle: bool,
    /// The warrior starts walking, from the first frame.
    pub walk: bool,
    /// The warrior arrived: its strike starts from the first frame.
    pub reset_frame: bool,
    /// The strike timer starts again.
    pub restart_timer: bool,
    /// What the strike did, when the warrior struck this frame.
    pub strike: Option<StrikeStep>,
}

/// A frame that changes nothing but the state.
pub open spec fn quiet_attack(state: BehaviourState) -> WarriorAttackStep {
    WarriorAttackStep { state, go_idle: false, walk: false, reset_frame: false, restart_timer: false, strike: None }
}

/// A frame of striking; the strike timer starts again when the warrior pauses.
pub open spec fn striking(s: StrikeStep) -> WarriorAttackStep {
    WarriorAttackStep {
        state: BehaviourState::Running(if s.pause { WARRIOR_PAUSE } else { WARRIOR_STRIKE }),
        go_idle: false,
        walk: false,
        reset_frame: false,
        restart_timer: s.pause,
        strike: Some(s),
    }
}

/// Walking: the strike starts on arrival.
pub open spec fn walking(arrived: bool) -> WarriorAttackStep {
    if arrived {
        WarriorAttackStep {
            reset_frame: true,
            restart_timer: true,
            ..quiet_attack(BehaviourState::Running(WARRIOR_STRIKE))
        }
    } else {
        quiet_attack(BehaviourState::Running(WARRIOR_MOVING))
    }
}

/// Starting an attack: walk to a target out of reach, or strike at once,
/// the strike timer just started.
pub open spec fn attack_start(
    in_reach: bool,
    arrived: bool,
    target_to_right: bool,
    current_frame: u8,
    damage_ready: bool,
) -> WarriorAttackStep {
    if !in_reach {
        WarriorAttackStep { walk: true, ..walking(arrived) }
    } else {
        let s = striking(strike_next(false, target_to_right, false, current_frame, false, damage_ready));
        WarriorAttackStep { restart_timer: true, ..s }
    }
}

/// What one frame of a warrior's attack does; see `warrior_attack_step`.
pub open spec fn warrior_attack_next(
    state: BehaviourState,
    target_life: u8,
    in_reach: bool,
    arrived: bool,
    pause_over: bool,
    target_to_right: bool,
    first_swing_over: bool,
    current_frame: u8,
    strike_over: bool,
    damage_ready: bool,
) -> WarriorAttackStep {
    if target_life == 0 {
        WarriorAttackStep { go_idle: true, ..quiet_attack(state) }
    } else {
        match state {
            BehaviourState::Initial => attack_start(in_reach, arrived, target_to_right, current_frame, damage_ready),
            BehaviourState::Running(step) => if step == WARRIOR_MOVING {
                walking(arrived)
            } else if step == WARRIOR_STRIKE {
                striking(
                    strike_next(!in_reach, target_to_right, first_swing_over, current_frame, strike_over, damage_ready),
                )
            } else if step == WARRIOR_PAUSE {
                if pause_over {
                    attack_start(in_reach, arrived, target_to_right, current_frame, damage_ready)
                } else {
                    quiet_attack(state)
                }
            } else {
                quiet_attack(state)
            },
        }
    }
}

/// A warrior gives up its attack exactly when the target is dead; then it
/// does nothing else that frame and keeps its state.
pub proof fn lemma_warrior_idles_only_on_dead_target(
    state: BehaviourState,
    target_life: u8,
    in_reach: bool,
    arrived: bool,
    pause_over: bool,
    target_to_right: bool,
    first_swing_over: bool,
    current_frame: u8,
    strike_over: bool,
    damage_ready: bool,
)
    ensures
        ({
            let a = warrior_attack_next(
                state,
                target_life,
                in_reach,
                arrived,
                pause_over,
                target_to_right,
                first_swing_over,
                current_frame,
                strike_over,
                damage_ready,
            );
            &&& a.go_idle == (target_life == 0)
            &&& target_life == 0 ==> a.state == state && !a.walk && a.strike is None && !a.restart_timer
        }),
{
}

/// A warrior walking to a living target keeps walking until it arrives, and
/// on arrival starts its strike from the first frame with the strike timer
/// just started; it never strikes while walking. An attack that starts on a
/// target out of reach starts the walk animation and walks the same way.
pub proof fn lemma_warrior_walks_until_arrived(
    target_life: u8,
    in_reach: bool,
    arrived: bool,
    pause_over: bool,
    target_to_right: bool,
    first_swing_over: bool,
    current_frame: u8,
    strike_over: bool,
    damage_ready: bool,
)
    requires
        target_life > 0,
    ensures
        ({
            let a = warrior_attack_next(
                BehaviourState::Running(WARRIOR_MOVING),
                target_life,
                in_reach,
                arrived,
                pause_over,
                target_to_right,
                first_swing_over,
                current_frame,
                strike_over,
                damage_ready,
            );
            &&& !a.go_idle
            &&& a.state == BehaviourState::Running(if arrived { WARRIOR_STRIKE } else { WARRIOR_MOVING })
            &&& a.reset_frame == arrived
            &&& a.restart_timer == arrived
            &&& !a.walk
            &&& a.strike is None
        }),
        !in_reach ==> {
            let a = warrior_attack_next(
                BehaviourState::Initial,
                target_life,
                in_reach,
                arrived,
                pause_over,
                target_to_right,
                first_swing_over,
                current_frame,
                strike_over,
                damage_ready,
            );
            &&& !a.go_idle
            &&& a.walk
            &&& a.state == BehaviourState::Running(if arrived { WARRIOR_STRIKE } else { WARRIOR_MOVING })
            &&& a.strike is None
        },
{
}

/// A striking warrior hits its living target only while it is in reach, at
/// the last frame of the swing when the damage timer ran out; a target that
/// left its reach makes it pause.
pub proof fn lemma_warrior_hits_in_reach(
    target_life: u8,
    in_reach: bool,
    arrived: bool,
    pause_over: bool,
    target_to_right: bool,
    first_swing_over: bool,
    current_frame: u8,
    strike_over: bool,
    damage_ready: bool,
)
    requires
        target_life > 0,
    ensures
        ({
            let a = warrior_attack_next(
                BehaviourState::Running(WARRIOR_STRIKE),
                target_life,
                in_reach,
                arrived,
                pause_over,
                target_to_right,
                first_swing_over,
                current_frame,
                strike_over,
                damage_ready,
            );
            &&& a.strike is Some
            &&& a.strike->0.hit == (in_reach && current_frame == 5 && damage_ready)
            &&& !in_reach ==> a.state == BehaviourState::Running(WARRIOR_PAUSE)
            &&& !a.go_idle
        }),
{
}

/// One frame of a warrior attacking a target with `target_life` left.
/// `in_reach` tells whether the target is within striking distance,
/// `arrived` whether the warrior reached it while walking this frame,
/// `pause_over` whether the pause after a strike is over; the other inputs
/// are those of `warrior_strike_step`, with the strike timer as it was
/// before this frame (a strike that starts this frame has its timer just
/// started). A dead target ends the attack; the warrior walks to a target
/// out of reach, strikes it, pauses after each strike, and attacks again.
pub fn warrior_attack_step(
    state: BehaviourState,
    target_life: u8,
    in_reach: bool,
    arrived: bool,
    pause_over: bool,
    target_to_right: bool,
    first_swing_over: bool,
    current_frame: u8,
    strike_over: bool,
    damage_ready: bool,
) -> (a: WarriorAttackStep)
    ensures
        a == warrior_attack_next(
            state,
            target_life,
            in_reach,
            arrived,
            pause_over,
            target_to_right,
            first_swing_over,
            current_frame,
            strike_over,
            damage_ready,
        ),
{
    let quiet = WarriorAttackStep { state, go_idle: false, walk: false, reset_frame: false, restart_timer: false, strike: None };
    if target_life == 0 {
        return WarriorAttackStep { go_idle: true, ..quiet };
    }
    match state {
        BehaviourState::Initial => start_attack(in_reach, arrived, target_to_right, current_frame, damage_ready),
        BehaviourState::Running(step) => {
            if step == WARRIOR_MOVING {
                walk_to_target(arrived)
            } else if step == WARRIOR_STRIKE {
                let s = warrior_strike_step(
                    !in_reach,
                    target_to_right,
                    first_swing_over,
                    current_frame,
                    strike_over,
                    damage_ready,
                );
                strike_frame(s)
            } else if step == WARRIOR_PAUSE {
                if pause_over {
                    start_attack(in_reach, arrived, target_to_right, current_frame, damage_ready)
                } else {
                    quiet
                }
            } else {
                quiet
            }
        },
    }
}

fn strike_frame(s: StrikeStep) -> (a: WarriorAttackStep)
    ensures
        a == striking(s),
{
    WarriorAttackStep {
        state: BehaviourState::Running(if s.pause { WARRIOR_PAUSE } else { WARRIOR_STRIKE }),
        go_idle: false,
        walk: false,
        reset_frame: false,
        restart_timer: s.pause,
        strike: Some(s),
    }
}

fn walk_to_target(arrived: bool) -> (a: WarriorAttackStep)
    ensures
        a == walking(arrived),
{
    WarriorAttackStep {
        state: BehaviourState::Running(if arrived { WARRIOR_STRIKE } else { WARRIOR_MOVING }),
        go_idle: false,
        walk: false,
        reset_frame: arrived,
        restart_timer: arrived,
        strike: None,
    }
}

fn start_attack(in_reach: bool, arrived: bool, target_to_right: bool, current_frame: u8, damage_ready: bool) -> (a:
    WarriorAttackStep)
    ensures
        a == attack_start(in_reach, arrived, target_to_right, current_frame, damage_ready),
{
    if !in_reach {
        let w = walk_to_target(arrived);
        WarriorAttackStep { walk: true, ..w }
    } else {
        let s = warrior_strike_step(false, target_to_right, false, current_frame, false, damage_ready);
        let f = strike_frame(s);
        WarriorAttackStep { restart_timer: true, ..f }
    }
}

/// Walking to the target.
pub const ARCHER_MOVING: u8 = 0;
/// Shooting at the target.
pub const ARCHER_SHOOTING: u8 = 2;
/// Waiting before shooting again.
pub const ARCHER_PAUSE: u8 = 3;

/// What one frame of an archer's attack does.
#[derive(Debug, Clone, Copy, PartialEq, Eq, Structural)]
pub struct ArcherAttackStep {
    /// The state of the behaviour after the frame.
    pub state: BehaviourState,
    /// The target is dead: the archer idles.
    pub go_idle: bool,
    /// The archer starts walking, from the first frame.
    pub walk: bool,
    /// The animation starts again at its first frame.
    pub reset_frame: bool,
    /// The shooting timer starts again.
    pub restart_timer: bool,
    /// What the shooting did, when the archer shot this frame.
    pub shot: Option<ShootStep>,
}

/// A frame that changes nothing but the state.
pub open spec fn quiet_archer(state: BehaviourState) -> ArcherAttackStep {
    ArcherAttackStep { state, go_idle: false, walk: false, reset_frame: false, restart_timer: false, shot: None }
}

/// What one frame of an archer's shooting does; see `archer_shoot_step`.
pub open spec fn shoot_next(out_of_range: bool, aim: AimDirection, target_to_left: bool, current_frame: u8, draw_over: bool) -> ShootStep {
    if out_of_range {
        ShootStep { animation: ArcherAnimation::Idle, flipped: None, reset_frame: true, pause: true, spawn_arrow: false }
    } else if current_frame == 7 && draw_over {
        ShootStep {
            animation: ArcherAnimation::Idle,
            flipped: Some(target_to_left),
            reset_frame: true,
            pause: true,
            spawn_arrow: true,
        }
    } else {
        ShootStep {
            animation: aim_animation(aim),
            flipped: Some(target_to_left),
            reset_frame: false,
            pause: false,
            spawn_arrow: false,
        }
    }
}

/// A frame of shooting; the timer starts again when the archer pauses.
pub open spec fn shooting(s: ShootStep) -> ArcherAttackStep {
    ArcherAttackStep {
        state: BehaviourState::Running(if s.pause { ARCHER_PAUSE } else { ARCHER_SHOOTING }),
        go_idle: false,
        walk: false,
        reset_frame: false,
        restart_timer: s.pause,
        shot: Some(s),
    }
}

/// Starting to shoot: walk towards a target too far, or shoot at once.
pub open spec fn archer_start(
    far: bool,
    close_after_move: bool,
    aim: AimDirection,
    target_to_left: bool,
    current_frame: u8,
    draw_over: bool,
) -> ArcherAttackStep {
    if far {
        ArcherAttackStep {
            walk: true,
            reset_frame: true,
            ..quiet_archer(BehaviourState::Running(if close_after_move { ARCHER_SHOOTING } else { ARCHER_MOVING }))
        }
    } else {
        ArcherAttackStep { reset_frame: true, ..shooting(shoot_next(false, aim, target_to_left, 0, draw_over)) }
    }
}

/// What one frame of an archer's attack does; see `archer_attack_step`.
pub open spec fn archer_attack_next(
    state: BehaviourState,
    target_life: u8,
    far: bool,
    close_after_move: bool,
    pause_over: bool,
    aim: AimDirection,
    target_to_left: bool,
    current_frame: u8,
    draw_over: bool,
) -> ArcherAttackStep {
    if target_life == 0 {
        ArcherAttackStep { go_idle: true, ..quiet_archer(state) }
    } else {
        match state {
            BehaviourState::Initial => archer_start(far, close_after_move, aim, target_to_left, current_frame, draw_over),
            BehaviourState::Running(step) => if step == ARCHER_MOVING {
                ArcherAttackStep {
                    reset_frame: close_after_move,
                    ..quiet_archer(BehaviourState::Running(if close_after_move { ARCHER_SHOOTING } else { ARCHER_MOVING }))
                }
            } else if step == ARCHER_SHOOTING {
                shooting(shoot_next(far, aim, target_to_left, current_frame, draw_over))
            } else if step == ARCHER_PAUSE {
                if pause_over {
                    archer_start(far, close_after_move, aim, target_to_left, current_frame, draw_over)
                } else {
                    quiet_archer(state)
                }
            } else {
                quiet_archer(state)
            },
        }
    }
}

/// An archer gives up exactly when its target is dead. Walking to a living
/// target, it keeps walking until the target is within shooting distance,
/// then starts shooting from the first frame; it never shoots while walking.
/// An arrow leaves the bow only while shooting a target within distance,
/// at the last frame of the draw.
pub proof fn lemma_archer_walks_until_close(
    state: BehaviourState,
    target_life: u8,
    far: bool,
    close_after_move: bool,
    pause_over: bool,
    aim: AimDirection,
    target_to_left: bool,
    current_frame: u8,
    draw_over: bool,
)
    ensures
        archer_attack_next(
            state,
            target_life,
            far,
            close_after_move,
            pause_over,
            aim,
            target_to_left,
            current_frame,
            draw_over,
        ).go_idle == (target_life == 0),
        target_life > 0 ==> {
            let a = archer_attack_next(
                BehaviourState::Running(ARCHER_MOVING),
                target_life,
                far,
                close_after_move,
                pause_over,
                aim,
                target_to_left,
                current_frame,
                draw_over,
            );
            &&& a.state == BehaviourState::Running(if close_after_move { ARCHER_SHOOTING } else { ARCHER_MOVING })
            &&& a.reset_frame == close_after_move
            &&& a.shot is None
            &&& !a.walk
        },
        target_life > 0 ==> {
            let a = archer_attack_next(
                BehaviourState::Running(ARCHER_SHOOTING),
                target_life,
                far,
                close_after_move,
                pause_over,
                aim,
                target_to_left,
                current_frame,
                draw_over,
            );
            &&& a.shot is Some
            &&& a.shot->0.spawn_arrow == (!far && current_frame == 7 && draw_over)
            &&& far ==> a.state == BehaviourState::Running(ARCHER_PAUSE)
        },
{
}

/// One frame of an archer attacking a target with `target_life` left. `far`
/// tells whether the target is beyond shooting distance at the start of the
/// frame, `close_after_move` whether it is within it after the archer walked
/// this frame, `pause_over` whether the pause after a shot is over; the other
/// inputs are those of `archer_shoot_step`. A dead target ends the attack; the
/// archer walks towards a target too far, shoots at it, pauses after each
/// arrow, and starts again.
pub fn archer_attack_step(
    state: BehaviourState,
    target_life: u8,
    far: bool,
    close_after_move: bool,
    pause_over: bool,
    aim: AimDirection,
    target_to_left: bool,
    current_frame: u8,
    draw_over: bool,
) -> (a: ArcherAttackStep)
    ensures
        a == archer_attack_next(
            state,
            target_life,
            far,
            close_after_move,
            pause_over,
            aim,
            target_to_left,
            current_frame,
            draw_over,
        ),
{
    let quiet = ArcherAttackStep { state, go_idle: false, walk: false, reset_frame: false, restart_timer: false, shot: None };
    if target_life == 0 {
        return ArcherAttackStep { go_idle: true, ..quiet };
    }
    match state {
        BehaviourState::Initial => start_shooting(far, close_after_move, aim, target_to_left, draw_over),
        BehaviourState::Running(step) => {
            if step == ARCHER_MOVING {
                ArcherAttackStep {
                    state: BehaviourState::Running(if close_after_move { ARCHER_SHOOTING } else { ARCHER_MOVING }),
                    reset_frame: close_after_move,
                    ..quiet
                }
            } else if step == ARCHER_SHOOTING {
                let s = archer_shoot_step(far, aim, target_to_left, current_frame, draw_over);
                shot_frame(s)
            } else if step == ARCHER_PAUSE {
                if pause_over {
                    start_shooting(far, close_after_move, aim, target_to_left, draw_over)
                } else {
                    quiet
                }
            } else {
                quiet
            }
        },
    }
}

fn shot_frame(s: ShootStep) -> (a: ArcherAttackStep)
    ensures
        a == shooting(s),
{
    ArcherAttackStep {
        state: BehaviourState::Running(if s.pause { ARCHER_PAUSE } else { ARCHER_SHOOTING }),
        go_idle: false,
        walk: false,
        reset_frame: false,
        restart_timer: s.pause,
        shot: Some(s),
    }
}

fn start_shooting(far: bool, close_after_move: bool, aim: AimDirection, target_to_left: bool, draw_over: bool) -> (a:
    ArcherAttackStep)
    ensures
        forall|f: u8| a == #[trigger] archer_start(far, close_after_move, aim, target_to_left, f, draw_over),
{
    if far {
        ArcherAttackStep {
            state: BehaviourState::Running(if close_after_move { ARCHER_SHOOTING } else { ARCHER_MOVING }),
            go_idle: false,
            walk: true,
            reset_frame: true,
            restart_timer: false,
            shot: None,
        }
    } else {
        let s = archer_shoot_step(false, aim, target_to_left, 0, draw_over);
        let f = shot_frame(s);
        ArcherAttackStep { reset_frame: true, ..f }
    }
}

} // verus!
