//! The kinds of terrain cells.
use vstd::prelude::*;

verus! {

/// The type of a terrain cell.
#[derive(Debug, Clone, Copy, PartialEq, Eq, Structural)]
pub enum TerrainCell {
    Grass,
    Sand,
    Water,
    /// Past the last kind: the number of kinds.
    Last,
}

/// The position of a kind of cell in the terrain tilemap.
pub open spec fn terrain_cell_index(cell: TerrainCell) -> usize {
    match cell {
        TerrainCell::Grass => 0,
        TerrainCell::Sand => 1,
        TerrainCell::Water => 2,
        TerrainCell::Last => 3,
    }
}

impl TerrainCell {
    /// The position of this kind of cell in the terrain tilemap.
    pub fn index(self) -> (i: usize)
        ensures
            i == terrain_cell_index(self),
    {
        match self {
            TerrainCell::Grass => 0,
            TerrainCell::Sand => 1,
            TerrainCell::Water => 2,
            TerrainCell::Last => 3,
        }
    }
}

} // verus!
