//! Rectangles, sizes and positions over any coordinate type.
use vstd::prelude::*;

verus! {

/// An axis-aligned rectangle.
#[derive(Debug, Clone, Copy, Default)]
pub struct AABB<N> {
    pub left: N,
    pub top: N,
    pub right: N,
    pub bottom: N,
}

/// A width and a height.
#[derive(Debug, Clone, Copy, Default)]
pub struct Size<N> {
    pub width: N,
    pub height: N,
}

/// A point.
#[derive(Debug, Clone, Copy, Default)]
pub struct Position<N> {
    pub x: N,
    pub y: N,
}

} // verus!
