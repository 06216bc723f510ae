//! References to the objects of the game world.
use vstd::prelude::*;

verus! {

/// The kind of a world object.
#[derive(Debug, Clone, Copy, PartialEq, Eq, Structural)]
pub enum WorldObjectType {
    Pawn,
    Warrior,
    Archer,
    TorchGoblin,
    DynamiteGoblin,
    Sheep,
    Tree,
    Structure,
    Resource,
}

/// A world object: its kind and its index among the objects of that kind.
#[derive(Debug, Clone, Copy, PartialEq, Eq, Structural)]
pub struct WorldObject {
    pub id: u32,
    pub ty: WorldObjectType,
}

/// The kind of a resource that can be picked up.
#[derive(Debug, Clone, Copy, PartialEq, Eq, Structural)]
pub enum ResourceType {
    Wood,
    Food,
    Gold,
}

/// A tree: the axe strokes it takes before it falls, and whether a pawn is cutting it.
#[derive(Debug, Clone, Copy, PartialEq, Eq, Structural)]
pub struct TreeData {
    pub life: u8,
    pub being_harvested: bool,
}

/// A resource lying in the world, or carried by a pawn.
#[derive(Debug, Clone, Copy, PartialEq, Eq, Structural)]
pub struct ResourceData {
    pub resource_type: ResourceType,
    pub grabbed: bool,
}

} // verus!
