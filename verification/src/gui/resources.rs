//! Handles to the images and texts shown by the gui.
use vstd::prelude::*;
use core::marker::PhantomData;
use crate::shapes::AABB;

verus! {

/// Id of a resource of type `T` in the gui: its slot, and the slot of the
/// list of components to refresh when it changes (`u32::MAX` if it never changes).
pub struct GuiResourceId<T> {
    pub value: u32,
    pub dynamic_id: u32,
    pub _t: PhantomData<T>,
}

impl<T> GuiResourceId<T> {
    /// A resource that never changes, at slot `index`.
    pub fn new(index: usize) -> (r: Self)
        ensures
            r.value == index as u32,
            r.dynamic_id == u32::MAX,
    {
        GuiResourceId { value: index as u32, dynamic_id: u32::MAX, _t: PhantomData }
    }

    /// A resource at slot `index` whose users are listed at `dyn_index`.
    pub fn new_dyn(index: usize, dyn_index: usize) -> (r: Self)
        ensures
            r.value == index as u32,
            r.dynamic_id == dyn_index as u32,
    {
        GuiResourceId { value: index as u32, dynamic_id: dyn_index as u32, _t: PhantomData }
    }

    /// The slot of the resource.
    pub fn index(&self) -> (i: usize)
        ensures
            i == self.value,
    {
        self.value as usize
    }

    /// The slot of the list of components that show the resource.
    pub fn dyn_index(&self) -> (i: usize)
        ensures
            i == self.dynamic_id,
    {
        self.dynamic_id as usize
    }

    /// Whether the resource can change after the gui is built.
    pub fn is_dyn(&self) -> (b: bool)
        ensures
            b == (self.dynamic_id != u32::MAX),
    {
        self.dynamic_id != u32::MAX
    }

    /// A copy of the id.
    pub fn copy(&self) -> (r: Self)
        ensures
            r.value == self.value,
            r.dynamic_id == self.dynamic_id,
    {
        GuiResourceId { value: self.value, dynamic_id: self.dynamic_id, _t: PhantomData }
    }
}

/// An id made from slots that fit in 32 bits gives those slots back.
pub proof fn lemma_resource_id_round_trip(index: usize, dyn_index: usize)
    requires
        index < u32::MAX,
        dyn_index < u32::MAX,
    ensures
        (index as u32) as usize == index,
        (dyn_index as u32) as usize == dyn_index,
        (dyn_index as u32) != u32::MAX,
{
}

impl<T> Default for GuiResourceId<T> {
    /// An id that names no resource.
    fn default() -> (r: Self)
        ensures
            r.value == u32::MAX,
            r.dynamic_id == u32::MAX,
    {
        GuiResourceId { value: u32::MAX, dynamic_id: u32::MAX, _t: PhantomData }
    }
}

/// A color of the gui.
#[derive(Debug, Clone, Copy, PartialEq, Eq, Structural)]
pub struct GuiColor {
    pub r: u8,
    pub g: u8,
    pub b: u8,
}

impl GuiColor {
    /// Plain white.
    pub fn white() -> (c: Self)
        ensures
            c == (GuiColor { r: 255, g: 255, b: 255 }),
    {
        GuiColor { r: 255, g: 255, b: 255 }
    }

    /// The three channels.
    pub fn splat(&self) -> (a: [u8; 3])
        ensures
            a@ == seq![self.r, self.g, self.b],
    {
        let a = [self.r, self.g, self.b];
        assert(a@ =~= seq![self.r, self.g, self.b]);
        a
    }
}

/// An image: a region of the gui texture.
#[derive(Debug, Clone, Copy, Default)]
pub struct GuiImage<N> {
    pub texcoord: AABB<N>,
}

impl<N> GuiImage<N> {
    /// The image showing the region `texcoord`.
    pub fn from_aabb(texcoord: AABB<N>) -> (i: Self)
        ensures
            i.texcoord == texcoord,
    {
        GuiImage { texcoord }
    }
}

/// The components that show a resource that can change.
#[derive(Debug)]
pub struct DynamicResource {
    /// Index of each component using this resource.
    pub users: Vec<u32>,
}

impl DynamicResource {
    /// A resource shown by no component yet.
    pub fn new() -> (r: Self)
        ensures
            r.users@.len() == 0,
    {
        DynamicResource { users: Vec::new() }
    }
}

} // verus!
