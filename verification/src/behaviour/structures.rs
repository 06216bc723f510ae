//! Hit points of structures: damage, repair and destruction.
use vstd::prelude::*;
use crate::assets::sprites::StructureSlot;

verus! {

/// The state of a structure that has hit points.
#[derive(Debug, Clone, Copy, PartialEq, Eq, Structural)]
pub struct StructureState {
    pub hp: u8,
    pub destroyed: bool,
    pub building: bool,
}

/// A gold mine: the gold left in it and the pawns mining it.
#[derive(Debug, Clone, Copy)]
pub struct StructureGoldMineData {
    pub remaining_gold: u8,
    pub miners_count: u8,
    pub miners_ids: [u32; 3],
}

/// A structure of the world.
#[derive(Debug, Clone, Copy)]
pub enum StructureData {
    Castle(StructureState),
    Tower(StructureState),
    House(StructureState),
    GoblinHut(StructureState),
    GoldMine(StructureGoldMineData),
}

/// Hit points left after `damage`: never below zero.
pub open spec fn damaged_hp(hp: u8, damage: u8) -> u8 {
    if damage >= hp { 0 } else { (hp - damage) as u8 }
}

/// The state after `damage`: destroyed once no hit point is left.
pub open spec fn damaged(s: StructureState, damage: u8) -> StructureState {
    StructureState { hp: damaged_hp(s.hp, damage), destroyed: damaged_hp(s.hp, damage) == 0, ..s }
}

/// The sprite a structure of this kind shows once destroyed; a gold mine is
/// never destroyed and keeps its sprite.
pub open spec fn destroyed_slot(data: StructureData) -> Option<StructureSlot> {
    match data {
        StructureData::Castle(_) => Some(StructureSlot::KnightsCastleDestroyed),
        StructureData::Tower(_) => Some(StructureSlot::KnightsTowerDestroyed),
        StructureData::House(_) => Some(StructureSlot::KnightsHouseDestroyed),
        StructureData::GoblinHut(_) => Some(StructureSlot::GoblinHouseDestroyed),
        StructureData::GoldMine(_) => None,
    }
}

/// A structure after a blow of `damage`; a gold mine takes no damage.
pub open spec fn damaged_structure(data: StructureData, damage: u8) -> StructureData {
    match data {
        StructureData::Castle(s) => StructureData::Castle(damaged(s, damage)),
        StructureData::Tower(s) => StructureData::Tower(damaged(s, damage)),
        StructureData::House(s) => StructureData::House(damaged(s, damage)),
        StructureData::GoblinHut(s) => StructureData::GoblinHut(damaged(s, damage)),
        StructureData::GoldMine(m) => StructureData::GoldMine(m),
    }
}

/// Whether a blow of `damage` leaves the structure with no hit point;
/// a gold mine is never destroyed.
pub open spec fn destroyed_by(data: StructureData, damage: u8) -> bool {
    match data {
        StructureData::GoldMine(_) => false,
        StructureData::Castle(s) | StructureData::Tower(s) | StructureData::House(s)
        | StructureData::GoblinHut(s) => damaged_hp(s.hp, damage) == 0,
    }
}

/// Whether a structure belongs to the enemy.
pub open spec fn is_enemy(data: StructureData) -> bool {
    data is GoblinHut
}

impl StructureData {
    /// Whether the structure belongs to the enemy.
    pub fn is_enemy(&self) -> (b: bool)
        ensures
            b == is_enemy(*self),
    {
        match self {
            StructureData::GoblinHut(_) => true,
            _ => false,
        }
    }

    /// Removes `damage` hit points, down to zero. Returns whether the
    /// structure is destroyed; a gold mine takes no damage and is never destroyed.
    pub fn damage(&mut self, damage: u8) -> (destroyed: bool)
        ensures
            *final(self) == damaged_structure(*old(self), damage),
            destroyed == destroyed_by(*old(self), damage),
    {
        match self {
            StructureData::Castle(data) => {
                data.hp = data.hp - if data.hp < damage { data.hp } else { damage };
                data.destroyed = data.hp == 0;
                data.destroyed
            },
            StructureData::Tower(data) => {
                data.hp = data.hp - if data.hp < damage { data.hp } else { damage };
                data.destroyed = data.hp == 0;
                data.destroyed
            },
            StructureData::House(data) => {
                data.hp = data.hp - if data.hp < damage { data.hp } else { damage };
                data.destroyed = data.hp == 0;
                data.destroyed
            },
            StructureData::GoblinHut(data) => {
                data.hp = data.hp - if data.hp < damage { data.hp } else { damage };
                data.destroyed = data.hp == 0;
                data.destroyed
            },
            StructureData::GoldMine(_) => false,
        }
    }

    /// The sprite the structure shows once destroyed.
    pub fn destroyed_sprite(&self) -> (r: Option<StructureSlot>)
        ensures
            r == destroyed_slot(*self),
    {
        match self {
            StructureData::Castle(_) => Some(StructureSlot::KnightsCastleDestroyed),
            StructureData::Tower(_) => Some(StructureSlot::KnightsTowerDestroyed),
            StructureData::House(_) => Some(StructureSlot::KnightsHouseDestroyed),
            StructureData::GoblinHut(_) => Some(StructureSlot::GoblinHouseDestroyed),
            StructureData::GoldMine(_) => None,
        }
    }
}

/// Damage never raises hit points, and a destroyed structure stays destroyed
/// under further damage.
pub proof fn lemma_damage_monotone(s: StructureState, d1: u8, d2: u8)
    ensures
        damaged(s, d1).hp <= s.hp,
        damaged(s, d1).destroyed ==> damaged(damaged(s, d1), d2).destroyed,
        damaged(s, d1).destroyed <==> damaged(s, d1).hp == 0,
{
}

} // verus!

verus! {

/// Hit points of a complete castle.
pub const MAX_CASTLE_HP: u8 = 200;
/// Hit points of a complete tower.
pub const MAX_TOWER_HP: u8 = 150;
/// Hit points of a complete house.
pub const MAX_HOUSE_HP: u8 = 100;

/// The hit points of a complete structure, for the structures pawns can build.
pub open spec fn max_hp(data: StructureData) -> Option<u8> {
    match data {
        StructureData::Castle(_) => Some(MAX_CASTLE_HP),
        StructureData::Tower(_) => Some(MAX_TOWER_HP),
        StructureData::House(_) => Some(MAX_HOUSE_HP),
        _ => None,
    }
}

/// The hit point state of a structure that has one.
pub open spec fn state_of(data: StructureData) -> StructureState {
    match data {
        StructureData::Castle(s) | StructureData::Tower(s) | StructureData::House(s)
        | StructureData::GoblinHut(s) => s,
        StructureData::GoldMine(_) => StructureState { hp: 0, destroyed: false, building: false },
    }
}

/// The structure with its hit point state replaced.
pub open spec fn with_state(data: StructureData, s: StructureState) -> StructureData {
    match data {
        StructureData::Castle(_) => StructureData::Castle(s),
        StructureData::Tower(_) => StructureData::Tower(s),
        StructureData::House(_) => StructureData::House(s),
        StructureData::GoblinHut(_) => StructureData::GoblinHut(s),
        StructureData::GoldMine(m) => StructureData::GoldMine(m),
    }
}

/// The structure once no longer under construction; structures pawns do
/// not build are left as they are.
pub open spec fn finished_building(data: StructureData) -> StructureData {
    if max_hp(data) is Some {
        with_state(data, StructureState { building: false, ..state_of(data) })
    } else {
        data
    }
}

/// Hit points after one round of building: five more, up to the maximum.
pub open spec fn repaired_hp(hp: u8, max: u8) -> u8 {
    if hp + 5 >= max { max } else { (hp + 5) as u8 }
}

impl StructureData {
    /// The hit points of the structure once complete, if pawns can build it.
    pub fn max_hp(&self) -> (m: Option<u8>)
        ensures
            m == max_hp(*self),
    {
        match self {
            StructureData::Castle(_) => Some(MAX_CASTLE_HP),
            StructureData::Tower(_) => Some(MAX_TOWER_HP),
            StructureData::House(_) => Some(MAX_HOUSE_HP),
            _ => None,
        }
    }

    /// Whether a pawn can start building the structure: it is one pawns build,
    /// and it is not complete.
    pub fn can_be_built(&self) -> (b: bool)
        ensures
            b == (max_hp(*self) matches Some(m) && state_of(*self).hp < m),
    {
        match self {
            StructureData::Castle(data) => data.hp < MAX_CASTLE_HP,
            StructureData::Tower(data) => data.hp < MAX_TOWER_HP,
            StructureData::House(data) => data.hp < MAX_HOUSE_HP,
            _ => false,
        }
    }

    /// One round of building: five more hit points, up to the maximum.
    /// Returns whether the structure is complete.
    pub fn repair_step(&mut self) -> (complete: bool)
        requires
            max_hp(*old(self)) is Some,
            state_of(*old(self)).hp <= 250,
        ensures
            *final(self) == with_state(
                *old(self),
                StructureState {
                    hp: repaired_hp(state_of(*old(self)).hp, max_hp(*old(self))->0),
                    ..state_of(*old(self))
                },
            ),
            complete == (repaired_hp(state_of(*old(self)).hp, max_hp(*old(self))->0) == max_hp(*old(self))->0),
    {
        match self {
            StructureData::Castle(data) => {
                data.hp = if data.hp + 5 >= MAX_CASTLE_HP { MAX_CASTLE_HP } else { data.hp + 5 };
                data.hp == MAX_CASTLE_HP
            },
            StructureData::Tower(data) => {
                data.hp = if data.hp + 5 >= MAX_TOWER_HP { MAX_TOWER_HP } else { data.hp + 5 };
                data.hp == MAX_TOWER_HP
            },
            StructureData::House(data) => {
                data.hp = if data.hp + 5 >= MAX_HOUSE_HP { MAX_HOUSE_HP } else { data.hp + 5 };
                data.hp == MAX_HOUSE_HP
            },
            _ => false,
        }
    }

    /// The structure is no longer under construction.
    pub fn finish_building(&mut self)
        ensures
            *final(self) == finished_building(*old(self)),
    {
        match self {
            StructureData::Castle(data) => {
                data.building = false;
            },
            StructureData::Tower(data) => {
                data.building = false;
            },
            StructureData::House(data) => {
                data.building = false;
            },
            _ => {},
        }
    }
}

/// Whether a pawn building the structure must stop: it is not one pawns
/// build, or it is complete.
pub fn early_exit(data: StructureData) -> (b: bool)
    ensures
        b == !(max_hp(data) matches Some(m) && state_of(data).hp != m),
{
    match data {
        StructureData::Castle(d) => d.hp == MAX_CASTLE_HP,
        StructureData::Tower(d) => d.hp == MAX_TOWER_HP,
        StructureData::House(d) => d.hp == MAX_HOUSE_HP,
        _ => true,
    }
}

/// Building never passes the maximum, always makes progress before it, and
/// completes within (maximum - hit points) / 5 + 1 rounds.
pub proof fn lemma_repair_progress(hp: u8, max: u8)
    requires
        hp <= max,
        max <= 250,
    ensures
        repaired_hp(hp, max) <= max,
        hp < max ==> repaired_hp(hp, max) > hp,
        hp == max ==> repaired_hp(hp, max) == max,
        repaired_hp(hp, max) < max ==> repaired_hp(hp, max) == hp + 5,
{
}

} // verus!

verus! {

/// `b` holds the values of `a` in increasing order.
pub open spec fn sorted_permutation(a: Seq<u32>, b: Seq<u32>) -> bool {
    &&& b.len() == a.len()
    &&& a.to_multiset() == b.to_multiset()
    &&& forall|i: int, j: int| 0 <= i < j < b.len() ==> b[i] <= b[j]
}

/// The miner slots after `pawn` left: its slots hold `u32::MAX`.
pub open spec fn without_miner(ids: Seq<u32>, pawn: u32) -> Seq<u32> {
    ids.map_values(|x: u32| if x == pawn { u32::MAX } else { x })
}

fn sort3(a: [u32; 3]) -> (r: [u32; 3])
    ensures
        sorted_permutation(a@, r@),
{
    let x = a[0];
    let y = a[1];
    let z = a[2];
    let (x, y) = if x <= y { (x, y) } else { (y, x) };
    let (y, z) = if y <= z { (y, z) } else { (z, y) };
    let (x, y) = if x <= y { (x, y) } else { (y, x) };
    let r = [x, y, z];
    proof {
        broadcast use vstd::multiset::group_multiset_axioms, vstd::seq_lib::group_to_multiset_ensures;
        let s0 = seq![a[0], a[1], a[2]];
        let s1 = seq![x, y, z];
        assert(a@ =~= s0);
        assert(r@ =~= s1);
        assert(s0 =~= Seq::<u32>::empty().push(a[0]).push(a[1]).push(a[2]));
        assert(s1 =~= Seq::<u32>::empty().push(x).push(y).push(z));
        assert(Seq::<u32>::empty().to_multiset() =~= vstd::multiset::Multiset::<u32>::empty());
        assert(s0.to_multiset() =~= s1.to_multiset());
    }
    r
}

impl StructureGoldMineData {
    /// At most three pawns mine at once, and the first slots name them.
    pub open spec fn wf(&self) -> bool {
        self.miners_count <= 3
    }

    /// Whether a pawn can start mining: gold is left and a slot is free.
    pub fn can_be_mined(&self) -> (b: bool)
        ensures
            b == (self.remaining_gold > 0 && self.miners_count < 3),
    {
        self.remaining_gold > 0 && self.miners_count < 3
    }

    /// A pawn enters the mine and takes the next slot.
    pub fn enter(&mut self, pawn_id: u32)
        requires
            old(self).miners_count < 3,
        ensures
            final(self).wf(),
            final(self).miners_count == old(self).miners_count + 1,
            final(self).miners_ids@ == old(self).miners_ids@.update(old(self).miners_count as int, pawn_id),
            final(self).remaining_gold == old(self).remaining_gold,
    {
        let i = self.miners_count as usize;
        let a = self.miners_ids;
        self.miners_ids = if i == 0 { [pawn_id, a[1], a[2]] } else if i == 1 { [a[0], pawn_id, a[2]] } else { [a[0], a[1], pawn_id] };
        self.miners_count = self.miners_count + 1;
        assert(self.miners_ids@ =~= old(self).miners_ids@.update(old(self).miners_count as int, pawn_id));
    }

    /// A pawn stops mining: its slots are emptied, one miner less is counted,
    /// and the slots are sorted so that the empty ones come last.
    pub fn leave(&mut self, pawn_id: u32)
        ensures
            final(self).remaining_gold == old(self).remaining_gold,
            old(self).miners_count > 0 ==> final(self).miners_count == old(self).miners_count - 1
                && sorted_permutation(without_miner(old(self).miners_ids@, pawn_id), final(self).miners_ids@),
            old(self).miners_count == 0 ==> final(self).miners_count == 0
                && final(self).miners_ids@ == without_miner(old(self).miners_ids@, pawn_id),
            old(self).wf() ==> final(self).wf(),
    {
        let a = self.miners_ids;
        let b = [
            if a[0] == pawn_id { u32::MAX } else { a[0] },
            if a[1] == pawn_id { u32::MAX } else { a[1] },
            if a[2] == pawn_id { u32::MAX } else { a[2] },
        ];
        assert(b@ =~= without_miner(a@, pawn_id));
        self.miners_ids = b;
        if self.miners_count > 0 {
            self.miners_count = self.miners_count - 1;
            self.miners_ids = sort3(b);
        }
    }

    /// One gold taken from the mine.
    pub fn mine_one(&mut self)
        requires
            old(self).remaining_gold > 0,
        ensures
            final(self).remaining_gold == old(self).remaining_gold - 1,
            final(self).miners_count == old(self).miners_count,
            final(self).miners_ids == old(self).miners_ids,
    {
        self.remaining_gold = self.remaining_gold - 1;
    }

    /// The mine is empty: nobody mines it any more.
    pub fn disable(&mut self)
        ensures
            final(self).wf(),
            final(self).miners_count == 0,
            final(self).miners_ids@ == seq![0u32, 0u32, 0u32],
            final(self).remaining_gold == old(self).remaining_gold,
    {
        self.miners_count = 0;
        self.miners_ids = [0, 0, 0];
        assert(self.miners_ids@ =~= seq![0u32, 0u32, 0u32]);
    }
}


/// Damages the structure at `index`, if there is one. When the blow
/// destroys it, returns the sprite it must show from now on.
pub fn damage_structure(structures: &mut Vec<StructureData>, index: usize, damage: u8) -> (r: Option<StructureSlot>)
    ensures
        index >= old(structures)@.len() ==> final(structures)@ == old(structures)@ && r is None,
        index < old(structures)@.len() ==> {
            let before = old(structures)@[index as int];
            &&& final(structures)@ == old(structures)@.update(index as int, damaged_structure(before, damage))
            &&& r == (if destroyed_by(before, damage) { destroyed_slot(before) } else { None })
        },
{
    if index >= structures.len() {
        return None;
    }
    let mut data = structures[index];
    let destroyed = data.damage(damage);
    structures.set(index, data);
    if destroyed {
        data.destroyed_sprite()
    } else {
        None
    }
}

} // verus!
