//! Behaviours: what each unit decides to do, frame after frame.
pub mod structures;
pub mod combat;
pub mod pawn;
pub mod arrows;

use vstd::prelude::*;
use crate::world::ResourceType;

verus! {

/// Where a behaviour is: not started, or running at some step.
#[derive(Debug, Clone, Copy, PartialEq, Eq, Structural)]
pub enum BehaviourState {
    Initial,
    Running(u8),
}

/// The saved form of a behaviour state: zero for the initial state, and
/// 256 plus the step for a running state.
pub open spec fn state_code(s: BehaviourState) -> u32 {
    match s {
        BehaviourState::Initial => 0,
        BehaviourState::Running(v) => (256 + v) as u32,
    }
}

/// The state a saved form stands for: zero is the initial state, anything
/// else a running state at the step in its low byte.
pub open spec fn state_of_code(value: u32) -> BehaviourState {
    if value == 0 {
        BehaviourState::Initial
    } else {
        BehaviourState::Running((value % 256) as u8)
    }
}

impl BehaviourState {
    /// The saved form of the state.
    pub fn save(&self) -> (code: u32)
        ensures
            code == state_code(*self),
    {
        match self {
            BehaviourState::Initial => 0,
            BehaviourState::Running(value) => 256 + *value as u32,
        }
    }

    /// The state read back from its saved form.
    pub fn load(value: u32) -> (s: BehaviourState)
        ensures
            s == state_of_code(value),
    {
        if value == 0 {
            BehaviourState::Initial
        } else {
            BehaviourState::Running((value % 256) as u8)
        }
    }
}

/// Loading a saved state gives that state back, for every state.
pub proof fn lemma_state_round_trip(s: BehaviourState)
    ensures
        state_of_code(state_code(s)) == s,
{
}

/// The behaviour of a spot where a resource appears.
#[derive(Debug, Clone, Copy)]
pub struct SpawnResourceBehaviour {
    pub resource_type: ResourceType,
    pub init: bool,
}

impl SpawnResourceBehaviour {
    /// A spot where a resource of type `resource_type` is about to appear.
    pub fn spawn(resource_type: ResourceType) -> (b: Self)
        ensures
            b.resource_type == resource_type,
            b.init,
    {
        SpawnResourceBehaviour { resource_type, init: true }
    }
}

/// What a resource spot does in a frame.
#[derive(Debug, Clone, Copy, PartialEq, Eq, Structural)]
pub enum SpawnStep {
    /// The spot starts the appearing animation of its resource, from the first frame.
    Start(ResourceType),
    /// The animation goes on.
    Wait,
    /// The animation is over: the resource appears in place of the spot.
    Create(ResourceType),
}

impl SpawnResourceBehaviour {
    /// One frame of a resource spot whose animation shows `current_frame`
    /// of frames up to `last_frame`: the first frame starts the animation,
    /// and the resource appears once its last frame shows.
    pub fn step(&mut self, current_frame: u8, last_frame: u8) -> (s: SpawnStep)
        ensures
            final(self).resource_type == old(self).resource_type,
            !final(self).init,
            s == (if old(self).init {
                SpawnStep::Start(old(self).resource_type)
            } else if current_frame != last_frame {
                SpawnStep::Wait
            } else {
                SpawnStep::Create(old(self).resource_type)
            }),
    {
        if self.init {
            self.init = false;
            return SpawnStep::Start(self.resource_type);
        }
        if current_frame != last_frame {
            return SpawnStep::Wait;
        }
        SpawnStep::Create(self.resource_type)
    }
}

} // verus!
