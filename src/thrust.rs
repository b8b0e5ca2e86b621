use vstd::prelude::*;

use crate::movement::{direction_of, lemma_direction_length, Direction, Movement};

verus! {

/// Magnitude of the acceleration that thrust imparts, in world units per
/// second squared. The force applied is this acceleration scaled through the
/// body's inertia, so the resulting acceleration does not depend on its mass.
pub const ACCELERATION_MAGNITUDE: u32 = 250;

/// A non-owning reference to a body of the world: its index in the order in
/// which the scene adds bodies.
#[derive(Clone, Copy, Debug, PartialEq, Eq, Structural)]
pub struct BodyHandle {
    pub index: usize,
}

/// The acceleration a generator applies to its body on one step.
///
/// The acceleration vector is `magnitude` times the exact `direction`.
#[derive(Clone, Copy, Debug, PartialEq, Eq, Structural)]
pub struct Thrust {
    /// The body that receives the force.
    pub body: BodyHandle,
    /// Direction of the acceleration (the zero vector for no thrust).
    pub direction: Direction,
    /// Length of the acceleration along `direction`.
    pub magnitude: u32,
    /// Whether the generator stays registered for the next step.
    pub keep_active: bool,
}

impl Thrust {
    /// The squared length of the acceleration vector, times `direction.norm_squared`:
    /// `magnitude² · (x² + y²)`. For a unit direction this is `magnitude² · n`.
    pub open spec fn scaled_length_squared(self) -> int {
        self.magnitude * self.magnitude * (self.direction.x * self.direction.x
            + self.direction.y * self.direction.y)
    }

    /// The acceleration is the zero vector.
    pub open spec fn is_zero(self) -> bool {
        self.magnitude == 0 || self.direction.x == 0 && self.direction.y == 0
    }
}

/// Drives one body toward a movement intent with a constant acceleration.
#[derive(Clone, Copy, Debug)]
pub struct SpaceshipForceGenerator {
    movement: Movement,
    player_body_handle: BodyHandle,
}

impl SpaceshipForceGenerator {
    /// The current movement intent.
    pub closed spec fn movement_spec(self) -> Movement {
        self.movement
    }

    /// The body this generator drives.
    pub closed spec fn body_spec(self) -> BodyHandle {
        self.player_body_handle
    }

    /// What one step of this generator applies.
    pub open spec fn thrust_spec(self) -> Thrust {
        Thrust {
            body: self.body_spec(),
            direction: direction_of(self.movement_spec()),
            magnitude: ACCELERATION_MAGNITUDE,
            keep_active: true,
        }
    }

    /// A generator that drives `player_body_handle` toward `movement`.
    pub fn new(player_body_handle: BodyHandle, movement: Movement) -> (r: Self)
        ensures
            r.movement_spec() == movement,
            r.body_spec() == player_body_handle,
    {
        SpaceshipForceGenerator { movement, player_body_handle }
    }

    /// The current movement intent.
    pub fn movement(&self) -> (r: Movement)
        ensures
            r == self.movement_spec(),
    {
        self.movement
    }

    /// The body this generator drives.
    pub fn body_handle(&self) -> (r: BodyHandle)
        ensures
            r == self.body_spec(),
    {
        self.player_body_handle
    }

    /// Changes the movement intent; the driven body stays the same.
    pub fn set_movement(&mut self, movement: Movement)
        ensures
            final(self).movement_spec() == movement,
            final(self).body_spec() == old(self).body_spec(),
    {
        self.movement = movement;
    }

    /// One step: the acceleration toward the current intent, of magnitude
    /// `ACCELERATION_MAGNITUDE`, for the driven body. The generator stays active.
    pub fn thrust(&self) -> (r: Thrust)
        ensures
            r == self.thrust_spec(),
            r.body == self.body_spec(),
            r.direction == direction_of(self.movement_spec()),
            r.magnitude == ACCELERATION_MAGNITUDE,
            r.keep_active,
    {
        Thrust {
            body: self.player_body_handle,
            direction: self.movement.direction(),
            magnitude: ACCELERATION_MAGNITUDE,
            keep_active: true,
        }
    }
}

/// With the `Stop` intent a step applies no acceleration, hence no force:
/// the body keeps its velocity unless something else acts on it.
pub proof fn lemma_stop_applies_nothing(g: SpaceshipForceGenerator)
    requires
        g.movement_spec() == Movement::Stop,
    ensures
        g.thrust_spec().is_zero(),
{
}

/// With the `Right` intent every step accelerates by exactly
/// `ACCELERATION_MAGNITUDE` along `+x` and not at all along `y`.
pub proof fn lemma_right_accelerates_along_x(g: SpaceshipForceGenerator)
    requires
        g.movement_spec() == Movement::Right,
    ensures
        g.thrust_spec().direction == (Direction { x: 1, y: 0, norm_squared: 1 }),
        g.thrust_spec().magnitude == ACCELERATION_MAGNITUDE,
        g.thrust_spec().magnitude > 0,
{
}

/// The acceleration a step asks for depends on the intent alone, not on which
/// body is driven (nor on its mass); for every intent but `Stop` its length is
/// `ACCELERATION_MAGNITUDE`.
pub proof fn lemma_acceleration_ignores_body(g1: SpaceshipForceGenerator, g2: SpaceshipForceGenerator)
    requires
        g1.movement_spec() == g2.movement_spec(),
    ensures
        g1.thrust_spec().direction == g2.thrust_spec().direction,
        g1.thrust_spec().magnitude == g2.thrust_spec().magnitude,
        g1.movement_spec() != Movement::Stop ==> g1.thrust_spec().scaled_length_squared()
            == ACCELERATION_MAGNITUDE * ACCELERATION_MAGNITUDE
            * g1.thrust_spec().direction.norm_squared,
{
    lemma_direction_length(g1.movement_spec());
}

} // verus!
