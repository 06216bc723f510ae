//! How a gui component places itself and its children.
use vstd::prelude::*;
use crate::shapes::AABB;
use super::resources::{GuiColor, GuiImage, GuiResourceId};

verus! {

/// Where a root component is anchored.
#[derive(Debug, Clone, Copy, PartialEq, Eq, Structural)]
pub enum GuiLayoutOrigin {
    Auto,
    BottomLeft,
}

/// The axis along which children are laid out.
#[derive(Debug, Clone, Copy, PartialEq, Eq, Structural)]
pub enum ItemsDirection {
    Column,
    Row,
}

/// How children are aligned across the layout axis.
#[derive(Debug, Clone, Copy, PartialEq, Eq, Structural)]
pub enum ItemsAlign {
    Start,
    Center,
}

/// Where children are placed along the layout axis.
#[derive(Debug, Clone, Copy, PartialEq, Eq, Structural)]
pub enum ItemsPosition {
    Start,
    Center,
}

/// How a component lays out its children.
#[derive(Debug, Clone, Copy, PartialEq, Eq, Structural)]
pub struct GuiAlignItems {
    pub direction: ItemsDirection,
    pub alignment: ItemsAlign,
    pub position: ItemsPosition,
}

impl Default for GuiAlignItems {
    /// Children in a column, centered both ways.
    fn default() -> (a: Self)
        ensures
            a == (GuiAlignItems {
                direction: ItemsDirection::Column,
                alignment: ItemsAlign::Center,
                position: ItemsPosition::Center,
            }),
    {
        GuiAlignItems {
            direction: ItemsDirection::Column,
            alignment: ItemsAlign::Center,
            position: ItemsPosition::Center,
        }
    }
}

/// A container: a background image drawn in a color.
pub struct GuiContainer<N> {
    pub background: GuiResourceId<GuiImage<N>>,
    pub color: GuiColor,
}

/// One sprite of the gui mesh.
#[derive(Debug, Clone, Copy)]
pub struct GuiOutputSprite<N> {
    pub positions: AABB<N>,
    pub texcoord: AABB<N>,
    pub color: GuiColor,
    pub flags: u8,
}

} // verus!
