//! Flags on the game state that ask for work at the next output.
use vstd::prelude::*;

verus! {

/// Animations must be updated.
pub const UPDATE_ANIMATIONS: u32 = 0b0001;
/// The world view offset must be sent to the engine.
pub const SYNC_VIEW: u32 = 0b0010;
/// The terrain data changed and must be sent to the engine.
pub const SYNC_TERRAIN: u32 = 0b0100;

/// Whether `flag` is set in `bits`.
pub open spec fn has_flag(bits: u32, flag: u32) -> bool {
    bits & flag > 0
}

/// A set of flags on the game state.
#[derive(Debug, Clone, Copy, Default)]
pub struct DemoGameFlags {
    pub inner: u32,
}

impl DemoGameFlags {
    pub fn set_update_animations(&mut self)
        ensures
            final(self).inner == old(self).inner | UPDATE_ANIMATIONS,
    {
        self.inner = self.inner | UPDATE_ANIMATIONS;
    }

    pub fn clear_update_animations(&mut self)
        ensures
            final(self).inner == old(self).inner & !UPDATE_ANIMATIONS,
    {
        self.inner = self.inner & !UPDATE_ANIMATIONS;
    }

    pub fn get_update_animations(&self) -> (b: bool)
        ensures
            b == has_flag(self.inner, UPDATE_ANIMATIONS),
    {
        self.inner & UPDATE_ANIMATIONS > 0
    }

    pub fn set_sync_view(&mut self)
        ensures
            final(self).inner == old(self).inner | SYNC_VIEW,
    {
        self.inner = self.inner | SYNC_VIEW;
    }

    pub fn clear_sync_view(&mut self)
        ensures
            final(self).inner == old(self).inner & !SYNC_VIEW,
    {
        self.inner = self.inner & !SYNC_VIEW;
    }

    pub fn get_sync_view(&self) -> (b: bool)
        ensures
            b == has_flag(self.inner, SYNC_VIEW),
    {
        self.inner & SYNC_VIEW > 0
    }

    pub fn set_sync_terrain(&mut self)
        ensures
            final(self).inner == old(self).inner | SYNC_TERRAIN,
    {
        self.inner = self.inner | SYNC_TERRAIN;
    }

    pub fn clear_sync_terrain(&mut self)
        ensures
            final(self).inner == old(self).inner & !SYNC_TERRAIN,
    {
        self.inner = self.inner & !SYNC_TERRAIN;
    }

    pub fn get_sync_terrain(&self) -> (b: bool)
        ensures
            b == has_flag(self.inner, SYNC_TERRAIN),
    {
        self.inner & SYNC_TERRAIN > 0
    }
}

/// Setting a flag makes it read as set, clearing it makes it read as clear,
/// and neither touches the other flags.
pub proof fn lemma_flags_independent(bits: u32)
    ensures
        has_flag(bits | UPDATE_ANIMATIONS, UPDATE_ANIMATIONS),
        has_flag(bits | SYNC_VIEW, SYNC_VIEW),
        has_flag(bits | SYNC_TERRAIN, SYNC_TERRAIN),
        !has_flag(bits & !UPDATE_ANIMATIONS, UPDATE_ANIMATIONS),
        !has_flag(bits & !SYNC_VIEW, SYNC_VIEW),
        !has_flag(bits & !SYNC_TERRAIN, SYNC_TERRAIN),
        has_flag(bits | UPDATE_ANIMATIONS, SYNC_VIEW) == has_flag(bits, SYNC_VIEW),
        has_flag(bits | UPDATE_ANIMATIONS, SYNC_TERRAIN) == has_flag(bits, SYNC_TERRAIN),
        has_flag(bits | SYNC_VIEW, UPDATE_ANIMATIONS) == has_flag(bits, UPDATE_ANIMATIONS),
        has_flag(bits | SYNC_VIEW, SYNC_TERRAIN) == has_flag(bits, SYNC_TERRAIN),
        has_flag(bits | SYNC_TERRAIN, UPDATE_ANIMATIONS) == has_flag(bits, UPDATE_ANIMATIONS),
        has_flag(bits | SYNC_TERRAIN, SYNC_VIEW) == has_flag(bits, SYNC_VIEW),
        has_flag(bits & !UPDATE_ANIMATIONS, SYNC_VIEW) == has_flag(bits, SYNC_VIEW),
        has_flag(bits & !UPDATE_ANIMATIONS, SYNC_TERRAIN) == has_flag(bits, SYNC_TERRAIN),
        has_flag(bits & !SYNC_VIEW, UPDATE_ANIMATIONS) == has_flag(bits, UPDATE_ANIMATIONS),
        has_flag(bits & !SYNC_VIEW, SYNC_TERRAIN) == has_flag(bits, SYNC_TERRAIN),
        has_flag(bits & !SYNC_TERRAIN, UPDATE_ANIMATIONS) == has_flag(bits, UPDATE_ANIMATIONS),
        has_flag(bits & !SYNC_TERRAIN, SYNC_VIEW) == has_flag(bits, SYNC_VIEW),
{
    assert((bits | 1u32) & 1u32 > 0) by (bit_vector);
    assert((bits | 2u32) & 2u32 > 0) by (bit_vector);
    assert((bits | 4u32) & 4u32 > 0) by (bit_vector);
    assert(!((bits & !1u32) & 1u32 > 0)) by (bit_vector);
    assert(!((bits & !2u32) & 2u32 > 0)) by (bit_vector);
    assert(!((bits & !4u32) & 4u32 > 0)) by (bit_vector);
    assert(((bits | 1u32) & 2u32 > 0) == (bits & 2u32 > 0)) by (bit_vector);
    assert(((bits | 1u32) & 4u32 > 0) == (bits & 4u32 > 0)) by (bit_vector);
    assert(((bits | 2u32) & 1u32 > 0) == (bits & 1u32 > 0)) by (bit_vector);
    assert(((bits | 2u32) & 4u32 > 0) == (bits & 4u32 > 0)) by (bit_vector);
    assert(((bits | 4u32) & 1u32 > 0) == (bits & 1u32 > 0)) by (bit_vector);
    assert(((bits | 4u32) & 2u32 > 0) == (bits & 2u32 > 0)) by (bit_vector);
    assert(((bits & !1u32) & 2u32 > 0) == (bits & 2u32 > 0)) by (bit_vector);
    assert(((bits & !1u32) & 4u32 > 0) == (bits & 4u32 > 0)) by (bit_vector);
    assert(((bits & !2u32) & 1u32 > 0) == (bits & 1u32 > 0)) by (bit_vector);
    assert(((bits & !2u32) & 4u32 > 0) == (bits & 4u32 > 0)) by (bit_vector);
    assert(((bits & !4u32) & 1u32 > 0) == (bits & 1u32 > 0)) by (bit_vector);
    assert(((bits & !4u32) & 2u32 > 0) == (bits & 2u32 > 0)) by (bit_vector);
}

} // verus!
