use vstd::prelude::*;

verus! {

/// Where a simulated body stands relative to the ground plane `y = 0`.
#[derive(Clone, Copy, Debug, PartialEq, Eq, Structural)]
pub enum PhysicsState {
    Grounded,
    Airborne,
}

/// The discrete part of an entity's physics: whether gravity acts on it at
/// all, and whether it is currently resting on the ground or in the air.
///
/// The continuous part (the position that gravity and jumps displace) is
/// held by the caller; this type decides what happens to it.
#[derive(Clone, Copy, Debug, PartialEq, Eq, Structural)]
pub struct PhysicsBody {
    pub enabled: bool,
    pub state: PhysicsState,
}

/// State after a jump request, and whether the request is honoured
/// (i.e. whether the caller must apply the upward displacement).
pub open spec fn jump_spec(s: PhysicsState) -> (PhysicsState, bool) {
    match s {
        PhysicsState::Grounded => (PhysicsState::Airborne, true),
        PhysicsState::Airborne => (PhysicsState::Airborne, false),
    }
}

/// State after the ground check of one tick, given whether the body's
/// height is at or below the ground plane.
pub open spec fn land_spec(s: PhysicsState, touching: bool) -> PhysicsState {
    if touching {
        PhysicsState::Grounded
    } else {
        s
    }
}

impl PhysicsBody {
    /// A body that starts at rest on the ground.
    pub fn new(enabled: bool) -> (r: PhysicsBody)
        ensures
            r.enabled == enabled,
            r.state == PhysicsState::Grounded,
    {
        PhysicsBody { enabled, state: PhysicsState::Grounded }
    }

    /// Whether the simulation step integrates gravity for this body.
    pub fn physics_enabled(&self) -> (r: bool)
        ensures
            r == self.enabled,
    {
        self.enabled
    }

    pub fn is_airborne(&self) -> (r: bool)
        ensures
            r == (self.state == PhysicsState::Airborne),
    {
        match self.state {
            PhysicsState::Grounded => false,
            PhysicsState::Airborne => true,
        }
    }

    /// A jump request. It is honoured only from `Grounded`: the body becomes
    /// `Airborne` and the result is `true`, telling the caller to apply the
    /// upward displacement once. While `Airborne` the request is a no-op.
    pub fn jump(&mut self) -> (honoured: bool)
        ensures
            (final(self).state, honoured) == jump_spec(old(self).state),
            final(self).enabled == old(self).enabled,
    {
        match self.state {
            PhysicsState::Grounded => {
                self.state = PhysicsState::Airborne;
                true
            },
            PhysicsState::Airborne => false,
        }
    }

    /// The ground check of one tick. `touching` tells whether the body's
    /// height is at or below the ground plane after gravity was applied.
    /// When it is, the body becomes `Grounded` and the result is `true`,
    /// telling the caller to clamp the height to exactly zero.
    pub fn land(&mut self, touching: bool) -> (clamp: bool)
        ensures
            clamp == touching,
            final(self).state == land_spec(old(self).state, touching),
            final(self).enabled == old(self).enabled,
    {
        if touching {
            self.state = PhysicsState::Grounded;
        }
        touching
    }
}

/// A jump is single-shot: of two jump requests in a row, the second is never
/// honoured, and the first is honoured exactly when the body was grounded.
pub proof fn lemma_jump_single_shot(s: PhysicsState)
    ensures
        !jump_spec(jump_spec(s).0).1,
        jump_spec(s).1 <==> s == PhysicsState::Grounded,
        jump_spec(jump_spec(s).0).0 == PhysicsState::Airborne,
{
}

/// Landing re-arms the jump: whatever the state, once the ground check finds
/// the body touching the ground, the next jump request is honoured again.
pub proof fn lemma_landing_rearms_jump(s: PhysicsState)
    ensures
        land_spec(s, true) == PhysicsState::Grounded,
        jump_spec(land_spec(s, true)).1,
{
}

} // verus!
