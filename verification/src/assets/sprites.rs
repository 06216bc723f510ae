//! The named sprites of the sprite sheets, and the bundles that hold their rectangles.
use vstd::prelude::*;
use crate::shapes::AABB;
use crate::text::chars_match;
use super::csv::{csv_rows, split_csv};

verus! {

/// The last of `rows` whose name, in its first column, satisfies `named`.
pub open spec fn last_row_matching(rows: Seq<Seq<Seq<char>>>, named: spec_fn(Seq<char>) -> bool) -> Option<int>
    decreases rows.len(),
{
    if rows.len() == 0 {
        None
    } else if named(rows.last()[0]) {
        Some(rows.len() - 1)
    } else {
        last_row_matching(rows.drop_last(), named)
    }
}

/// `x` is what `parse` reads from the text `field`.
pub open spec fn field_read<N, F: Fn(&Vec<char>) -> N>(parse: F, field: Seq<char>, x: N) -> bool {
    exists|v: Vec<char>| v@ == field && call_ensures(parse, (&v,), x)
}

/// `rect` was read by `parse` from the four columns of `row` starting at `first`:
/// left, top, right, bottom.
pub open spec fn rect_read<N, F: Fn(&Vec<char>) -> N>(parse: F, row: Seq<Seq<char>>, first: int, rect: AABB<N>) -> bool {
    &&& field_read(parse, row[first], rect.left)
    &&& field_read(parse, row[first + 1], rect.top)
    &&& field_read(parse, row[first + 2], rect.right)
    &&& field_read(parse, row[first + 3], rect.bottom)
}

/// The rectangle in the four columns of `row` starting at `first`.
fn read_rect<N, F: Fn(&Vec<char>) -> N>(row: &Vec<Vec<char>>, first: usize, parse: &F) -> (r: AABB<N>)
    requires
        first <= 2,
        first + 4 <= row@.len(),
        forall|v: &Vec<char>| call_requires(*parse, (v,)),
    ensures
        call_ensures(*parse, (&row@[first as int],), r.left),
        call_ensures(*parse, (&row@[first + 1],), r.top),
        call_ensures(*parse, (&row@[first + 2],), r.right),
        call_ensures(*parse, (&row@[first + 3],), r.bottom),
{
    let left = parse(&row[first]);
    let top = parse(&row[first + 1]);
    let right = parse(&row[first + 2]);
    let bottom = parse(&row[first + 3]);
    AABB { left, top, right, bottom }
}

proof fn lemma_rect_read_view<N, F: Fn(&Vec<char>) -> N>(parse: F, row: &Vec<Vec<char>>, view: Seq<Seq<char>>, first: int, rect: AABB<N>)
    requires
        0 <= first,
        first + 4 <= row@.len(),
        forall|c: int| 0 <= c < row@.len() ==> #[trigger] row@[c]@ == view[c],
        call_ensures(parse, (&row@[first],), rect.left),
        call_ensures(parse, (&row@[first + 1],), rect.top),
        call_ensures(parse, (&row@[first + 2],), rect.right),
        call_ensures(parse, (&row@[first + 3],), rect.bottom),
    ensures
        rect_read(parse, view, first, rect),
{
    assert(row@[first]@ == view[first]);
    assert(row@[first + 1]@ == view[first + 1]);
    assert(row@[first + 2]@ == view[first + 2]);
    assert(row@[first + 3]@ == view[first + 3]);
}

/// A decoration sprite.
#[derive(Debug, Clone, Copy, Default)]
pub struct DecorationBase<N> {
    pub aabb: AABB<N>,
}

/// The decorations of the static sprite sheet.
#[derive(Debug, Clone, Copy, PartialEq, Eq, Structural)]
pub enum DecorationSlot {
    Sign1,
    Sign2,
    Sign3,
    ShroomBig,
    ShroomMed,
    ShroomSml,
    RockBig,
    RockMed,
    RockSml,
    BushBig,
    BushMed,
    BushSml,
    PlantMed,
    PlantSml,
    PumpkinMed,
    PumpkinSml,
    Bone1,
    Bone2,
    TreeStump,
}

/// The decoration that a sprite sheet row named `name` describes.
pub open spec fn decoration_slot(name: Seq<char>) -> Option<DecorationSlot> {
    if name == "sign_1"@ {
        Some(DecorationSlot::Sign1)
    } else if name == "sign_2"@ {
        Some(DecorationSlot::Sign2)
    } else if name == "sign_3"@ {
        Some(DecorationSlot::Sign3)
    } else if name == "shroom_big"@ {
        Some(DecorationSlot::ShroomBig)
    } else if name == "shroom_medium"@ {
        Some(DecorationSlot::ShroomMed)
    } else if name == "shroom_small"@ {
        Some(DecorationSlot::ShroomSml)
    } else if name == "rock_big"@ {
        Some(DecorationSlot::RockBig)
    } else if name == "rock_medium"@ {
        Some(DecorationSlot::RockMed)
    } else if name == "rock_small"@ {
        Some(DecorationSlot::RockSml)
    } else if name == "bush_big"@ {
        Some(DecorationSlot::BushBig)
    } else if name == "bush_medium"@ {
        Some(DecorationSlot::BushMed)
    } else if name == "bush_small"@ {
        Some(DecorationSlot::BushSml)
    } else if name == "plant_medium"@ {
        Some(DecorationSlot::PlantMed)
    } else if name == "plant_small"@ {
        Some(DecorationSlot::PlantSml)
    } else if name == "pumpkin_medium"@ {
        Some(DecorationSlot::PumpkinMed)
    } else if name == "pumpkin_small"@ {
        Some(DecorationSlot::PumpkinSml)
    } else if name == "bone1"@ {
        Some(DecorationSlot::Bone1)
    } else if name == "bone2"@ {
        Some(DecorationSlot::Bone2)
    } else if name == "tree_stump"@ {
        Some(DecorationSlot::TreeStump)
    } else {
        None
    }
}

/// The decoration that a sprite sheet row named `name` describes.
pub fn match_decoration(name: &Vec<char>) -> (r: Option<DecorationSlot>)
    ensures
        r == decoration_slot(name@),
{
    if chars_match(name, "sign_1") {
        return Some(DecorationSlot::Sign1);
    }
    if chars_match(name, "sign_2") {
        return Some(DecorationSlot::Sign2);
    }
    if chars_match(name, "sign_3") {
        return Some(DecorationSlot::Sign3);
    }
    if chars_match(name, "shroom_big") {
        return Some(DecorationSlot::ShroomBig);
    }
    if chars_match(name, "shroom_medium") {
        return Some(DecorationSlot::ShroomMed);
    }
    if chars_match(name, "shroom_small") {
        return Some(DecorationSlot::ShroomSml);
    }
    if chars_match(name, "rock_big") {
        return Some(DecorationSlot::RockBig);
    }
    if chars_match(name, "rock_medium") {
        return Some(DecorationSlot::RockMed);
    }
    if chars_match(name, "rock_small") {
        return Some(DecorationSlot::RockSml);
    }
    if chars_match(name, "bush_big") {
        return Some(DecorationSlot::BushBig);
    }
    if chars_match(name, "bush_medium") {
        return Some(DecorationSlot::BushMed);
    }
    if chars_match(name, "bush_small") {
        return Some(DecorationSlot::BushSml);
    }
    if chars_match(name, "plant_medium") {
        return Some(DecorationSlot::PlantMed);
    }
    if chars_match(name, "plant_small") {
        return Some(DecorationSlot::PlantSml);
    }
    if chars_match(name, "pumpkin_medium") {
        return Some(DecorationSlot::PumpkinMed);
    }
    if chars_match(name, "pumpkin_small") {
        return Some(DecorationSlot::PumpkinSml);
    }
    if chars_match(name, "bone1") {
        return Some(DecorationSlot::Bone1);
    }
    if chars_match(name, "bone2") {
        return Some(DecorationSlot::Bone2);
    }
    if chars_match(name, "tree_stump") {
        return Some(DecorationSlot::TreeStump);
    }
    None
}

/// The sprites of the decorations.
#[derive(Debug, Clone, Copy, Default)]
pub struct DecorationBundle<N> {
    pub sign1: DecorationBase<N>,
    pub sign2: DecorationBase<N>,
    pub sign3: DecorationBase<N>,
    pub shroom_big: DecorationBase<N>,
    pub shroom_med: DecorationBase<N>,
    pub shroom_sml: DecorationBase<N>,
    pub rock_big: DecorationBase<N>,
    pub rock_med: DecorationBase<N>,
    pub rock_sml: DecorationBase<N>,
    pub bush_big: DecorationBase<N>,
    pub bush_med: DecorationBase<N>,
    pub bush_sml: DecorationBase<N>,
    pub plant_med: DecorationBase<N>,
    pub plant_sml: DecorationBase<N>,
    pub pumpkin_med: DecorationBase<N>,
    pub pumpkin_sml: DecorationBase<N>,
    pub bone1: DecorationBase<N>,
    pub bone2: DecorationBase<N>,
    pub tree_stump: DecorationBase<N>,
}

impl<N: Copy> DecorationBundle<N> {
    /// The decoration in slot `s`.
    pub open spec fn get(&self, s: DecorationSlot) -> DecorationBase<N> {
        match s {
            DecorationSlot::Sign1 => self.sign1,
            DecorationSlot::Sign2 => self.sign2,
            DecorationSlot::Sign3 => self.sign3,
            DecorationSlot::ShroomBig => self.shroom_big,
            DecorationSlot::ShroomMed => self.shroom_med,
            DecorationSlot::ShroomSml => self.shroom_sml,
            DecorationSlot::RockBig => self.rock_big,
            DecorationSlot::RockMed => self.rock_med,
            DecorationSlot::RockSml => self.rock_sml,
            DecorationSlot::BushBig => self.bush_big,
            DecorationSlot::BushMed => self.bush_med,
            DecorationSlot::BushSml => self.bush_sml,
            DecorationSlot::PlantMed => self.plant_med,
            DecorationSlot::PlantSml => self.plant_sml,
            DecorationSlot::PumpkinMed => self.pumpkin_med,
            DecorationSlot::PumpkinSml => self.pumpkin_sml,
            DecorationSlot::Bone1 => self.bone1,
            DecorationSlot::Bone2 => self.bone2,
            DecorationSlot::TreeStump => self.tree_stump,
        }
    }

    /// Replaces the decoration in slot `s`.
    pub fn set(&mut self, s: DecorationSlot, value: DecorationBase<N>)
        ensures
            forall|t: DecorationSlot| #[trigger] final(self).get(t) == if t == s { value } else { old(self).get(t) },
    {
        match s {
            DecorationSlot::Sign1 => { self.sign1 = value; },
            DecorationSlot::Sign2 => { self.sign2 = value; },
            DecorationSlot::Sign3 => { self.sign3 = value; },
            DecorationSlot::ShroomBig => { self.shroom_big = value; },
            DecorationSlot::ShroomMed => { self.shroom_med = value; },
            DecorationSlot::ShroomSml => { self.shroom_sml = value; },
            DecorationSlot::RockBig => { self.rock_big = value; },
            DecorationSlot::RockMed => { self.rock_med = value; },
            DecorationSlot::RockSml => { self.rock_sml = value; },
            DecorationSlot::BushBig => { self.bush_big = value; },
            DecorationSlot::BushMed => { self.bush_med = value; },
            DecorationSlot::BushSml => { self.bush_sml = value; },
            DecorationSlot::PlantMed => { self.plant_med = value; },
            DecorationSlot::PlantSml => { self.plant_sml = value; },
            DecorationSlot::PumpkinMed => { self.pumpkin_med = value; },
            DecorationSlot::PumpkinSml => { self.pumpkin_sml = value; },
            DecorationSlot::Bone1 => { self.bone1 = value; },
            DecorationSlot::Bone2 => { self.bone2 = value; },
            DecorationSlot::TreeStump => { self.tree_stump = value; },
        }
    }

    /// Reads the rectangles of the sprite sheet `csv`, with `parse` reading each
    /// coordinate. Each slot takes the rectangle of the last row that names it;
    /// rows that name no slot are ignored.
    pub fn load<F: Fn(&Vec<char>) -> N>(&mut self, csv: &str, parse: F)
        requires
            forall|v: &Vec<char>| call_requires(parse, (v,)),
        ensures
            forall|s: DecorationSlot| #![trigger final(self).get(s)] match last_row_matching(
                csv_rows(csv@, 6),
                |n: Seq<char>| decoration_slot(n) == Some(s),
            ) {
                None => final(self).get(s) == old(self).get(s),
                Some(r) => rect_read(parse, csv_rows(csv@, 6)[r], 2, final(self).get(s).aabb),
            },
    {
        let rows = split_csv(csv, 6);
        let ghost all = csv_rows(csv@, 6);
        let mut i: usize = 0;
        while i < rows.len()
            invariant
                i <= rows@.len(),
                all == csv_rows(csv@, 6),
                rows@.len() == all.len(),
                forall|r: int| #![trigger rows@[r]]
                    0 <= r < rows@.len() ==> rows@[r]@.len() == 6 && forall|c: int| #![trigger rows@[r]@[c]]
                        0 <= c < 6 ==> rows@[r]@[c]@ == all[r][c],
                forall|v: &Vec<char>| call_requires(parse, (v,)),
                forall|s: DecorationSlot| #![trigger self.get(s)] match last_row_matching(
                    all.subrange(0, i as int),
                    |n: Seq<char>| decoration_slot(n) == Some(s),
                ) {
                    None => self.get(s) == old(self).get(s),
                    Some(r) => rect_read(parse, all[r], 2, self.get(s).aabb),
                },
            decreases rows@.len() - i,
        {
            proof {
                assert(all.subrange(0, i + 1).drop_last() =~= all.subrange(0, i as int));
                assert(rows@[i as int]@[0]@ == all[i as int][0]);
            }
            match match_decoration(&rows[i][0]) {
                Some(slot) => {
                    let rect = read_rect(&rows[i], 2, &parse);
                    proof {
                        lemma_rect_read_view(parse, &rows@[i as int], all[i as int], 2, rect);
                    }
                    self.set(slot, DecorationBase { aabb: rect });
                },
                None => {},
            }
            i = i + 1;
        }
        proof {
            assert(all.subrange(0, all.len() as int) =~= all);
        }
    }
}

/// The structures of the static sprite sheet.
#[derive(Debug, Clone, Copy, PartialEq, Eq, Structural)]
pub enum StructureSlot {
    KnightsCastle,
    KnightsCastleConstruction,
    KnightsCastleDestroyed,
    KnightsTower,
    KnightsTowerConstruction,
    KnightsTowerDestroyed,
    KnightsHouse,
    KnightsHouseConstruction,
    KnightsHouseDestroyed,
    GoblinHouse,
    GoblinHouseDestroyed,
    GoldMine,
    GoldMineInactive,
    GoldMineDestroyed,
}

/// The structure sprite that a sprite sheet row named `name` describes.
pub open spec fn structure_slot(name: Seq<char>) -> Option<StructureSlot> {
    if name == "knight_castle"@ {
        Some(StructureSlot::KnightsCastle)
    } else if name == "knight_castle_construction"@ {
        Some(StructureSlot::KnightsCastleConstruction)
    } else if name == "knight_castle_destroyed"@ {
        Some(StructureSlot::KnightsCastleDestroyed)
    } else if name == "knight_tower"@ {
        Some(StructureSlot::KnightsTower)
    } else if name == "knight_tower_construction"@ {
        Some(StructureSlot::KnightsTowerConstruction)
    } else if name == "knight_tower_destroyed"@ {
        Some(StructureSlot::KnightsTowerDestroyed)
    } else if name == "knight_house"@ {
        Some(StructureSlot::KnightsHouse)
    } else if name == "knight_house_construction"@ {
        Some(StructureSlot::KnightsHouseConstruction)
    } else if name == "knight_house_destroyed"@ {
        Some(StructureSlot::KnightsHouseDestroyed)
    } else if name == "goblin_house"@ {
        Some(StructureSlot::GoblinHouse)
    } else if name == "goblin_house_destroyed"@ {
        Some(StructureSlot::GoblinHouseDestroyed)
    } else if name == "gold_mine"@ {
        Some(StructureSlot::GoldMine)
    } else if name == "gold_mine_inactive"@ {
        Some(StructureSlot::GoldMineInactive)
    } else if name == "gold_mine_destroyed"@ {
        Some(StructureSlot::GoldMineDestroyed)
    } else {
        None
    }
}

/// The structure sprite that a sprite sheet row named `name` describes.
pub fn match_structure(name: &Vec<char>) -> (r: Option<StructureSlot>)
    ensures
        r == structure_slot(name@),
{
    if chars_match(name, "knight_castle") {
        return Some(StructureSlot::KnightsCastle);
    }
    if chars_match(name, "knight_castle_construction") {
        return Some(StructureSlot::KnightsCastleConstruction);
    }
    if chars_match(name, "knight_castle_destroyed") {
        return Some(StructureSlot::KnightsCastleDestroyed);
    }
    if chars_match(name, "knight_tower") {
        return Some(StructureSlot::KnightsTower);
    }
    if chars_match(name, "knight_tower_construction") {
        return Some(StructureSlot::KnightsTowerConstruction);
    }
    if chars_match(name, "knight_tower_destroyed") {
        return Some(StructureSlot::KnightsTowerDestroyed);
    }
    if chars_match(name, "knight_house") {
        return Some(StructureSlot::KnightsHouse);
    }
    if chars_match(name, "knight_house_construction") {
        return Some(StructureSlot::KnightsHouseConstruction);
    }
    if chars_match(name, "knight_house_destroyed") {
        return Some(StructureSlot::KnightsHouseDestroyed);
    }
    if chars_match(name, "goblin_house") {
        return Some(StructureSlot::GoblinHouse);
    }
    if chars_match(name, "goblin_house_destroyed") {
        return Some(StructureSlot::GoblinHouseDestroyed);
    }
    if chars_match(name, "gold_mine") {
        return Some(StructureSlot::GoldMine);
    }
    if chars_match(name, "gold_mine_inactive") {
        return Some(StructureSlot::GoldMineInactive);
    }
    if chars_match(name, "gold_mine_destroyed") {
        return Some(StructureSlot::GoldMineDestroyed);
    }
    None
}

/// The sprites of the structures.
#[derive(Debug, Clone, Copy, Default)]
pub struct StructuresBundle<N> {
    pub knights_castle: AABB<N>,
    pub knights_castle_construction: AABB<N>,
    pub knights_castle_destroyed: AABB<N>,
    pub knights_tower: AABB<N>,
    pub knights_tower_construction: AABB<N>,
    pub knights_tower_destroyed: AABB<N>,
    pub knights_house: AABB<N>,
    pub knights_house_construction: AABB<N>,
    pub knights_house_destroyed: AABB<N>,
    pub goblin_house: AABB<N>,
    pub goblin_house_destroyed: AABB<N>,
    pub gold_mine: AABB<N>,
    pub gold_mine_inactive: AABB<N>,
    pub gold_mine_destroyed: AABB<N>,
}

impl<N: Copy> StructuresBundle<N> {
    /// The structure sprite in slot `s`.
    pub open spec fn get(&self, s: StructureSlot) -> AABB<N> {
        match s {
            StructureSlot::KnightsCastle => self.knights_castle,
            StructureSlot::KnightsCastleConstruction => self.knights_castle_construction,
            StructureSlot::KnightsCastleDestroyed => self.knights_castle_destroyed,
            StructureSlot::KnightsTower => self.knights_tower,
            StructureSlot::KnightsTowerConstruction => self.knights_tower_construction,
            StructureSlot::KnightsTowerDestroyed => self.knights_tower_destroyed,
            StructureSlot::KnightsHouse => self.knights_house,
            StructureSlot::KnightsHouseConstruction => self.knights_house_construction,
            StructureSlot::KnightsHouseDestroyed => self.knights_house_destroyed,
            StructureSlot::GoblinHouse => self.goblin_house,
            StructureSlot::GoblinHouseDestroyed => self.goblin_house_destroyed,
            StructureSlot::GoldMine => self.gold_mine,
            StructureSlot::GoldMineInactive => self.gold_mine_inactive,
            StructureSlot::GoldMineDestroyed => self.gold_mine_destroyed,
        }
    }

    /// Replaces the structure sprite in slot `s`.
    pub fn set(&mut self, s: StructureSlot, value: AABB<N>)
        ensures
            forall|t: StructureSlot| #[trigger] final(self).get(t) == if t == s { value } else { old(self).get(t) },
    {
        match s {
            StructureSlot::KnightsCastle => { self.knights_castle = value; },
            StructureSlot::KnightsCastleConstruction => { self.knights_castle_construction = value; },
            StructureSlot::KnightsCastleDestroyed => { self.knights_castle_destroyed = value; },
            StructureSlot::KnightsTower => { self.knights_tower = value; },
            StructureSlot::KnightsTowerConstruction => { self.knights_tower_construction = value; },
            StructureSlot::KnightsTowerDestroyed => { self.knights_tower_destroyed = value; },
            StructureSlot::KnightsHouse => { self.knights_house = value; },
            StructureSlot::KnightsHouseConstruction => { self.knights_house_construction = value; },
            StructureSlot::KnightsHouseDestroyed => { self.knights_house_destroyed = value; },
            StructureSlot::GoblinHouse => { self.goblin_house = value; },
            StructureSlot::GoblinHouseDestroyed => { self.goblin_house_destroyed = value; },
            StructureSlot::GoldMine => { self.gold_mine = value; },
            StructureSlot::GoldMineInactive => { self.gold_mine_inactive = value; },
            StructureSlot::GoldMineDestroyed => { self.gold_mine_destroyed = value; },
        }
    }

    /// Reads the rectangles of the sprite sheet `csv`, with `parse` reading each
    /// coordinate. Each slot takes the rectangle of the last row that names it;
    /// rows that name no slot are ignored.
    pub fn load<F: Fn(&Vec<char>) -> N>(&mut self, csv: &str, parse: F)
        requires
            forall|v: &Vec<char>| call_requires(parse, (v,)),
        ensures
            forall|s: StructureSlot| #![trigger final(self).get(s)] match last_row_matching(
                csv_rows(csv@, 6),
                |n: Seq<char>| structure_slot(n) == Some(s),
            ) {
                None => final(self).get(s) == old(self).get(s),
                Some(r) => rect_read(parse, csv_rows(csv@, 6)[r], 2, final(self).get(s)),
            },
    {
        let rows = split_csv(csv, 6);
        let ghost all = csv_rows(csv@, 6);
        let mut i: usize = 0;
        while i < rows.len()
            invariant
                i <= rows@.len(),
                all == csv_rows(csv@, 6),
                rows@.len() == all.len(),
                forall|r: int| #![trigger rows@[r]]
                    0 <= r < rows@.len() ==> rows@[r]@.len() == 6 && forall|c: int| #![trigger rows@[r]@[c]]
                        0 <= c < 6 ==> rows@[r]@[c]@ == all[r][c],
                forall|v: &Vec<char>| call_requires(parse, (v,)),
                forall|s: StructureSlot| #![trigger self.get(s)] match last_row_matching(
                    all.subrange(0, i as int),
                    |n: Seq<char>| structure_slot(n) == Some(s),
                ) {
                    None => self.get(s) == old(self).get(s),
                    Some(r) => rect_read(parse, all[r], 2, self.get(s)),
                },
            decreases rows@.len() - i,
        {
            proof {
                assert(all.subrange(0, i + 1).drop_last() =~= all.subrange(0, i as int));
                assert(rows@[i as int]@[0]@ == all[i as int][0]);
            }
            match match_structure(&rows[i][0]) {
                Some(slot) => {
                    let rect = read_rect(&rows[i], 2, &parse);
                    proof {
                        lemma_rect_read_view(parse, &rows@[i as int], all[i as int], 2, rect);
                    }
                    self.set(slot, rect);
                },
                None => {},
            }
            i = i + 1;
        }
        proof {
            assert(all.subrange(0, all.len() as int) =~= all);
        }
    }
}

/// The images of the gui sprite sheet.
#[derive(Debug, Clone, Copy, PartialEq, Eq, Structural)]
pub enum GuiSlot {
    Solid,
    InfoPanel,
}

/// The gui image that a sprite sheet row named `name` describes.
pub open spec fn gui_slot(name: Seq<char>) -> Option<GuiSlot> {
    if name == "solid"@ {
        Some(GuiSlot::Solid)
    } else if name == "info_panel"@ {
        Some(GuiSlot::InfoPanel)
    } else {
        None
    }
}

/// The gui image that a sprite sheet row named `name` describes.
pub fn match_gui(name: &Vec<char>) -> (r: Option<GuiSlot>)
    ensures
        r == gui_slot(name@),
{
    if chars_match(name, "solid") {
        return Some(GuiSlot::Solid);
    }
    if chars_match(name, "info_panel") {
        return Some(GuiSlot::InfoPanel);
    }
    None
}

/// The images of the gui.
#[derive(Debug, Clone, Copy, Default)]
pub struct GuiBundle<N> {
    pub solid: AABB<N>,
    pub info_panel: AABB<N>,
}

impl<N: Copy> GuiBundle<N> {
    /// The gui image in slot `s`.
    pub open spec fn get(&self, s: GuiSlot) -> AABB<N> {
        match s {
            GuiSlot::Solid => self.solid,
            GuiSlot::InfoPanel => self.info_panel,
        }
    }

    /// Replaces the gui image in slot `s`.
    pub fn set(&mut self, s: GuiSlot, value: AABB<N>)
        ensures
            forall|t: GuiSlot| #[trigger] final(self).get(t) == if t == s { value } else { old(self).get(t) },
    {
        match s {
            GuiSlot::Solid => { self.solid = value; },
            GuiSlot::InfoPanel => { self.info_panel = value; },
        }
    }

    /// Reads the rectangles of the sprite sheet `csv`, with `parse` reading each
    /// coordinate. Each slot takes the rectangle of the last row that names it;
    /// rows that name no slot are ignored.
    pub fn load<F: Fn(&Vec<char>) -> N>(&mut self, csv: &str, parse: F)
        requires
            forall|v: &Vec<char>| call_requires(parse, (v,)),
        ensures
            forall|s: GuiSlot| #![trigger final(self).get(s)] match last_row_matching(
                csv_rows(csv@, 6),
                |n: Seq<char>| gui_slot(n) == Some(s),
            ) {
                None => final(self).get(s) == old(self).get(s),
                Some(r) => rect_read(parse, csv_rows(csv@, 6)[r], 1, final(self).get(s)),
            },
    {
        let rows = split_csv(csv, 6);
        let ghost all = csv_rows(csv@, 6);
        let mut i: usize = 0;
        while i < rows.len()
            invariant
                i <= rows@.len(),
                all == csv_rows(csv@, 6),
                rows@.len() == all.len(),
                forall|r: int| #![trigger rows@[r]]
                    0 <= r < rows@.len() ==> rows@[r]@.len() == 6 && forall|c: int| #![trigger rows@[r]@[c]]
                        0 <= c < 6 ==> rows@[r]@[c]@ == all[r][c],
                forall|v: &Vec<char>| call_requires(parse, (v,)),
                forall|s: GuiSlot| #![trigger self.get(s)] match last_row_matching(
                    all.subrange(0, i as int),
                    |n: Seq<char>| gui_slot(n) == Some(s),
                ) {
                    None => self.get(s) == old(self).get(s),
                    Some(r) => rect_read(parse, all[r], 1, self.get(s)),
                },
            decreases rows@.len() - i,
        {
            proof {
                assert(all.subrange(0, i + 1).drop_last() =~= all.subrange(0, i as int));
                assert(rows@[i as int]@[0]@ == all[i as int][0]);
            }
            match match_gui(&rows[i][0]) {
                Some(slot) => {
                    let rect = read_rect(&rows[i], 1, &parse);
                    proof {
                        lemma_rect_read_view(parse, &rows@[i as int], all[i as int], 1, rect);
                    }
                    self.set(slot, rect);
                },
                None => {},
            }
            i = i + 1;
        }
        proof {
            assert(all.subrange(0, all.len() as int) =~= all);
        }
    }
}

/// The still sprites of the resources.
#[derive(Debug, Clone, Copy, PartialEq, Eq, Structural)]
pub enum StaticResourceSlot {
    ExplosiveBarrel,
    Gold,
    GoldShadowless,
    Meat,
    MeatShadowless,
    Wood,
    WoodShadowless,
    TreeStump,
}

/// The still resource sprite that a sprite sheet row named `name` describes.
pub open spec fn static_resource_slot(name: Seq<char>) -> Option<StaticResourceSlot> {
    if name == "explosive_barrel"@ {
        Some(StaticResourceSlot::ExplosiveBarrel)
    } else if name == "gold"@ {
        Some(StaticResourceSlot::Gold)
    } else if name == "gold_noshadow"@ {
        Some(StaticResourceSlot::GoldShadowless)
    } else if name == "meat"@ {
        Some(StaticResourceSlot::Meat)
    } else if name == "meat_noshadow"@ {
        Some(StaticResourceSlot::MeatShadowless)
    } else if name == "wood"@ {
        Some(StaticResourceSlot::Wood)
    } else if name == "wood_noshadow"@ {
        Some(StaticResourceSlot::WoodShadowless)
    } else if name == "tree_stump"@ {
        Some(StaticResourceSlot::TreeStump)
    } else {
        None
    }
}

/// The still resource sprite that a sprite sheet row named `name` describes.
pub fn match_static_resource(name: &Vec<char>) -> (r: Option<StaticResourceSlot>)
    ensures
        r == static_resource_slot(name@),
{
    if chars_match(name, "explosive_barrel") {
        return Some(StaticResourceSlot::ExplosiveBarrel);
    }
    if chars_match(name, "gold") {
        return Some(StaticResourceSlot::Gold);
    }
    if chars_match(name, "gold_noshadow") {
        return Some(StaticResourceSlot::GoldShadowless);
    }
    if chars_match(name, "meat") {
        return Some(StaticResourceSlot::Meat);
    }
    if chars_match(name, "meat_noshadow") {
        return Some(StaticResourceSlot::MeatShadowless);
    }
    if chars_match(name, "wood") {
        return Some(StaticResourceSlot::Wood);
    }
    if chars_match(name, "wood_noshadow") {
        return Some(StaticResourceSlot::WoodShadowless);
    }
    if chars_match(name, "tree_stump") {
        return Some(StaticResourceSlot::TreeStump);
    }
    None
}

/// The animations of the resources.
#[derive(Debug, Clone, Copy, PartialEq, Eq, Structural)]
pub enum AnimatedResourceSlot {
    TreeIdle,
    TreeCut,
    GoldSpawn,
    MeatSpawn,
    WoodSpawn,
}

/// The resource animation that a sprite sheet row named `name` describes.
pub open spec fn animated_resource_slot(name: Seq<char>) -> Option<AnimatedResourceSlot> {
    if name == "tree_idle"@ {
        Some(AnimatedResourceSlot::TreeIdle)
    } else if name == "tree_cut"@ {
        Some(AnimatedResourceSlot::TreeCut)
    } else if name == "gold_spawn"@ {
        Some(AnimatedResourceSlot::GoldSpawn)
    } else if name == "meat_spawn"@ {
        Some(AnimatedResourceSlot::MeatSpawn)
    } else if name == "wood_spawn"@ {
        Some(AnimatedResourceSlot::WoodSpawn)
    } else {
        None
    }
}

/// The resource animation that a sprite sheet row named `name` describes.
pub fn match_animated_resource(name: &Vec<char>) -> (r: Option<AnimatedResourceSlot>)
    ensures
        r == animated_resource_slot(name@),
{
    if chars_match(name, "tree_idle") {
        return Some(AnimatedResourceSlot::TreeIdle);
    }
    if chars_match(name, "tree_cut") {
        return Some(AnimatedResourceSlot::TreeCut);
    }
    if chars_match(name, "gold_spawn") {
        return Some(AnimatedResourceSlot::GoldSpawn);
    }
    if chars_match(name, "meat_spawn") {
        return Some(AnimatedResourceSlot::MeatSpawn);
    }
    if chars_match(name, "wood_spawn") {
        return Some(AnimatedResourceSlot::WoodSpawn);
    }
    None
}

/// The animations of the gobindynamite sprites.
#[derive(Debug, Clone, Copy, PartialEq, Eq, Structural)]
pub enum DynamiteGoblinAnimationSlot {
    Idle,
    Walk,
    Throw,
}

/// The gobindynamite animation that a sprite sheet row named `name` describes.
pub open spec fn gobindynamite_animation_slot(name: Seq<char>) -> Option<DynamiteGoblinAnimationSlot> {
    if name == "gobindynamite_idle"@ {
        Some(DynamiteGoblinAnimationSlot::Idle)
    } else if name == "gobindynamite_walk"@ {
        Some(DynamiteGoblinAnimationSlot::Walk)
    } else if name == "gobindynamite_throw"@ {
        Some(DynamiteGoblinAnimationSlot::Throw)
    } else {
        None
    }
}

/// The gobindynamite animation that a sprite sheet row named `name` describes.
pub fn match_gobindynamite_animation(name: &Vec<char>) -> (r: Option<DynamiteGoblinAnimationSlot>)
    ensures
        r == gobindynamite_animation_slot(name@),
{
    if chars_match(name, "gobindynamite_idle") {
        return Some(DynamiteGoblinAnimationSlot::Idle);
    }
    if chars_match(name, "gobindynamite_walk") {
        return Some(DynamiteGoblinAnimationSlot::Walk);
    }
    if chars_match(name, "gobindynamite_throw") {
        return Some(DynamiteGoblinAnimationSlot::Throw);
    }
    None
}

/// The animations of the gobintorch sprites.
#[derive(Debug, Clone, Copy, PartialEq, Eq, Structural)]
pub enum TorchGoblinAnimationSlot {
    Idle,
    Walk,
    StrikeH,
}

/// The gobintorch animation that a sprite sheet row named `name` describes.
pub open spec fn gobintorch_animation_slot(name: Seq<char>) -> Option<TorchGoblinAnimationSlot> {
    if name == "gobintorch_idle"@ {
        Some(TorchGoblinAnimationSlot::Idle)
    } else if name == "gobintorch_walk"@ {
        Some(TorchGoblinAnimationSlot::Walk)
    } else if name == "gobintorch_strike_horz"@ {
        Some(TorchGoblinAnimationSlot::StrikeH)
    } else {
        None
    }
}

/// The gobintorch animation that a sprite sheet row named `name` describes.
pub fn match_gobintorch_animation(name: &Vec<char>) -> (r: Option<TorchGoblinAnimationSlot>)
    ensures
        r == gobintorch_animation_slot(name@),
{
    if chars_match(name, "gobintorch_idle") {
        return Some(TorchGoblinAnimationSlot::Idle);
    }
    if chars_match(name, "gobintorch_walk") {
        return Some(TorchGoblinAnimationSlot::Walk);
    }
    if chars_match(name, "gobintorch_strike_horz") {
        return Some(TorchGoblinAnimationSlot::StrikeH);
    }
    None
}

/// The animations of the sheep sprites.
#[derive(Debug, Clone, Copy, PartialEq, Eq, Structural)]
pub enum SheepAnimationSlot {
    Idle,
    Walk,
}

/// The sheep animation that a sprite sheet row named `name` describes.
pub open spec fn sheep_animation_slot(name: Seq<char>) -> Option<SheepAnimationSlot> {
    if name == "sheep_idle"@ {
        Some(SheepAnimationSlot::Idle)
    } else if name == "sheep_walk"@ {
        Some(SheepAnimationSlot::Walk)
    } else {
        None
    }
}

/// The sheep animation that a sprite sheet row named `name` describes.
pub fn match_sheep_animation(name: &Vec<char>) -> (r: Option<SheepAnimationSlot>)
    ensures
        r == sheep_animation_slot(name@),
{
    if chars_match(name, "sheep_idle") {
        return Some(SheepAnimationSlot::Idle);
    }
    if chars_match(name, "sheep_walk") {
        return Some(SheepAnimationSlot::Walk);
    }
    None
}

/// The animations of the pawn sprites.
#[derive(Debug, Clone, Copy, PartialEq, Eq, Structural)]
pub enum PawnAnimationSlot {
    Idle,
    Walk,
    Hammer,
    Axe,
    IdleHold,
    WalkHold,
}

/// The pawn animation that a sprite sheet row named `name` describes.
pub open spec fn pawn_animation_slot(name: Seq<char>) -> Option<PawnAnimationSlot> {
    if name == "pawn_idle"@ {
        Some(PawnAnimationSlot::Idle)
    } else if name == "pawn_walk"@ {
        Some(PawnAnimationSlot::Walk)
    } else if name == "pawn_hammer"@ {
        Some(PawnAnimationSlot::Hammer)
    } else if name == "pawn_axe"@ {
        Some(PawnAnimationSlot::Axe)
    } else if name == "pawn_idle_hold"@ {
        Some(PawnAnimationSlot::IdleHold)
    } else if name == "pawn_walk_hold"@ {
        Some(PawnAnimationSlot::WalkHold)
    } else {
        None
    }
}

/// The pawn animation that a sprite sheet row named `name` describes.
pub fn match_pawn_animation(name: &Vec<char>) -> (r: Option<PawnAnimationSlot>)
    ensures
        r == pawn_animation_slot(name@),
{
    if chars_match(name, "pawn_idle") {
        return Some(PawnAnimationSlot::Idle);
    }
    if chars_match(name, "pawn_walk") {
        return Some(PawnAnimationSlot::Walk);
    }
    if chars_match(name, "pawn_hammer") {
        return Some(PawnAnimationSlot::Hammer);
    }
    if chars_match(name, "pawn_axe") {
        return Some(PawnAnimationSlot::Axe);
    }
    if chars_match(name, "pawn_idle_hold") {
        return Some(PawnAnimationSlot::IdleHold);
    }
    if chars_match(name, "pawn_walk_hold") {
        return Some(PawnAnimationSlot::WalkHold);
    }
    None
}

/// The animations of the archer sprites.
#[derive(Debug, Clone, Copy, PartialEq, Eq, Structural)]
pub enum ArcherAnimationSlot {
    Idle,
    Walk,
    FireTop,
    FireTopH,
    FireH,
    FireBottomH,
    FireBottom,
}

/// The archer animation that a sprite sheet row named `name` describes.
pub open spec fn archer_animation_slot(name: Seq<char>) -> Option<ArcherAnimationSlot> {
    if name == "archer_idle"@ {
        Some(ArcherAnimationSlot::Idle)
    } else if name == "archer_walk"@ {
        Some(ArcherAnimationSlot::Walk)
    } else if name == "archer_shoot_top"@ {
        Some(ArcherAnimationSlot::FireTop)
    } else if name == "archer_shoot_top_horz"@ {
        Some(ArcherAnimationSlot::FireTopH)
    } else if name == "archer_shoot_horz"@ {
        Some(ArcherAnimationSlot::FireH)
    } else if name == "archer_shoot_bottom_horz"@ {
        Some(ArcherAnimationSlot::FireBottomH)
    } else if name == "archer_shoot_bottom"@ {
        Some(ArcherAnimationSlot::FireBottom)
    } else {
        None
    }
}

/// The archer animation that a sprite sheet row named `name` describes.
pub fn match_archer_animation(name: &Vec<char>) -> (r: Option<ArcherAnimationSlot>)
    ensures
        r == archer_animation_slot(name@),
{
    if chars_match(name, "archer_idle") {
        return Some(ArcherAnimationSlot::Idle);
    }
    if chars_match(name, "archer_walk") {
        return Some(ArcherAnimationSlot::Walk);
    }
    if chars_match(name, "archer_shoot_top") {
        return Some(ArcherAnimationSlot::FireTop);
    }
    if chars_match(name, "archer_shoot_top_horz") {
        return Some(ArcherAnimationSlot::FireTopH);
    }
    if chars_match(name, "archer_shoot_horz") {
        return Some(ArcherAnimationSlot::FireH);
    }
    if chars_match(name, "archer_shoot_bottom_horz") {
        return Some(ArcherAnimationSlot::FireBottomH);
    }
    if chars_match(name, "archer_shoot_bottom") {
        return Some(ArcherAnimationSlot::FireBottom);
    }
    None
}

/// The animations of the warrior sprites.
#[derive(Debug, Clone, Copy, PartialEq, Eq, Structural)]
pub enum WarriorAnimationSlot {
    Idle,
    Walk,
    StrikeH1,
    StrikeH2,
}

/// The warrior animation that a sprite sheet row named `name` describes.
pub open spec fn warrior_animation_slot(name: Seq<char>) -> Option<WarriorAnimationSlot> {
    if name == "warrior_idle"@ {
        Some(WarriorAnimationSlot::Idle)
    } else if name == "warrior_walk"@ {
        Some(WarriorAnimationSlot::Walk)
    } else if name == "warrior_strike_horz1"@ {
        Some(WarriorAnimationSlot::StrikeH1)
    } else if name == "warrior_strike_horz2"@ {
        Some(WarriorAnimationSlot::StrikeH2)
    } else {
        None
    }
}

/// The warrior animation that a sprite sheet row named `name` describes.
pub fn match_warrior_animation(name: &Vec<char>) -> (r: Option<WarriorAnimationSlot>)
    ensures
        r == warrior_animation_slot(name@),
{
    if chars_match(name, "warrior_idle") {
        return Some(WarriorAnimationSlot::Idle);
    }
    if chars_match(name, "warrior_walk") {
        return Some(WarriorAnimationSlot::Walk);
    }
    if chars_match(name, "warrior_strike_horz1") {
        return Some(WarriorAnimationSlot::StrikeH1);
    }
    if chars_match(name, "warrior_strike_horz2") {
        return Some(WarriorAnimationSlot::StrikeH2);
    }
    None
}

} // verus!
