//! Three-dimensional vectors in fixed-point arithmetic, and the position and
//! velocity values built on them.

use vstd::prelude::*;

verus! {

/// Raw value of the quantity 1: lengths, speeds and angles are integers that
/// count millionths of their unit.
pub const UNIT: i64 = 1_000_000;

/// Factor by which the horizontal components of a velocity are scaled up
/// before they are handed to the rigid body. It is a plain ratio, not a
/// fixed-point quantity.
pub const COEFFICIENT_OF_ACCELERATION: i64 = 8;

/// Vertical speed that a jump adds on top of the body's up vector.
pub const JUMP_IMPULSE: i64 = UNIT;

/// A vector of three mathematical integers: what a [`Vector3`], a
/// [`Position`] or a [`Velocity`] stands for in contracts.
pub struct SpecVector3 {
    pub x: int,
    pub y: int,
    pub z: int,
}

impl SpecVector3 {
    /// Component-wise sum.
    pub open spec fn plus(self, other: SpecVector3) -> SpecVector3 {
        SpecVector3 { x: self.x + other.x, y: self.y + other.y, z: self.z + other.z }
    }

    /// Component-wise difference.
    pub open spec fn minus(self, other: SpecVector3) -> SpecVector3 {
        SpecVector3 { x: self.x - other.x, y: self.y - other.y, z: self.z - other.z }
    }

    /// The vector `factor` times over.
    pub open spec fn times(self, factor: int) -> SpecVector3 {
        SpecVector3 { x: factor * self.x, y: factor * self.y, z: factor * self.z }
    }

    /// The vector that points straight up or down with speed `y`.
    pub open spec fn vertical(y: int) -> SpecVector3 {
        SpecVector3 { x: 0, y, z: 0 }
    }

    /// The vector with `amount` added to its vertical component.
    pub open spec fn raised(self, amount: int) -> SpecVector3 {
        SpecVector3 { x: self.x, y: self.y + amount, z: self.z }
    }

    /// The vector whose horizontal components are scaled by
    /// [`COEFFICIENT_OF_ACCELERATION`] and whose vertical component is kept.
    pub open spec fn accelerated(self) -> SpecVector3 {
        SpecVector3 {
            x: self.x * COEFFICIENT_OF_ACCELERATION,
            y: self.y,
            z: self.z * COEFFICIENT_OF_ACCELERATION,
        }
    }

    /// Whether no component exceeds `limit` in magnitude.
    pub open spec fn within(self, limit: int) -> bool {
        &&& -limit <= self.x <= limit
        &&& -limit <= self.y <= limit
        &&& -limit <= self.z <= limit
    }

    /// Whether each component can be held in an `i64`.
    pub open spec fn representable(self) -> bool {
        &&& i64::MIN <= self.x <= i64::MAX
        &&& i64::MIN <= self.y <= i64::MAX
        &&& i64::MIN <= self.z <= i64::MAX
    }
}

/// Acceleration scales the two horizontal components by
/// [`COEFFICIENT_OF_ACCELERATION`] and passes the vertical one through, for
/// every vector.
pub proof fn lemma_acceleration_scales_horizontal_components(velocity: SpecVector3)
    ensures
        velocity.accelerated() == (SpecVector3 { x: 8 * velocity.x, y: velocity.y, z: 8 * velocity.z }),
{
}

/// A vector of three fixed-point components.
#[derive(Clone, Copy, Debug, PartialEq, Eq, Structural)]
pub struct Vector3 {
    pub x: i64,
    pub y: i64,
    pub z: i64,
}

impl View for Vector3 {
    type V = SpecVector3;

    open spec fn view(&self) -> SpecVector3 {
        SpecVector3 { x: self.x as int, y: self.y as int, z: self.z as int }
    }
}

impl Vector3 {
    pub fn new(x: i64, y: i64, z: i64) -> (vector: Vector3)
        ensures
            vector.x == x,
            vector.y == y,
            vector.z == z,
        no_unwind
    {
        Vector3 { x, y, z }
    }

    /// Tests whether no component exceeds `limit` in magnitude. Under a
    /// negative limit no vector passes.
    pub fn is_within(&self, limit: i64) -> (within: bool)
        ensures
            within == self@.within(limit as int),
        no_unwind
    {
        0 <= limit && -limit <= self.x && self.x <= limit && -limit <= self.y && self.y <= limit
            && -limit <= self.z && self.z <= limit
    }
}

/// A point of the world, captured from the rigid body once per frame.
#[derive(Clone, Copy, Debug, PartialEq, Eq, Structural)]
pub struct Position {
    vector: Vector3,
}

impl View for Position {
    type V = SpecVector3;

    open spec fn view(&self) -> SpecVector3 {
        self.spec_vector()@
    }
}

impl Position {
    /// The vector that the position wraps.
    pub closed spec fn spec_vector(&self) -> Vector3 {
        self.vector
    }

    pub fn new(position: Vector3) -> (wrapped: Position)
        ensures
            wrapped@ == position@,
        no_unwind
    {
        Position { vector: position }
    }

    #[verifier::when_used_as_spec(spec_vector)]
    pub fn vector(&self) -> (vector: Vector3)
        ensures
            vector == self.spec_vector(),
            vector@ == self@,
        no_unwind
    {
        self.vector
    }
}

/// The linear motion wanted for the current frame, before acceleration.
#[derive(Clone, Copy, Debug, PartialEq, Eq, Structural)]
pub struct Velocity {
    vector: Vector3,
}

impl View for Velocity {
    type V = SpecVector3;

    open spec fn view(&self) -> SpecVector3 {
        self.spec_vector()@
    }
}

impl Velocity {
    /// The vector that the velocity wraps.
    pub closed spec fn spec_vector(&self) -> Vector3 {
        self.vector
    }

    pub fn new(velocity: Vector3) -> (wrapped: Velocity)
        ensures
            wrapped@ == velocity@,
        no_unwind
    {
        Velocity { vector: velocity }
    }

    pub fn x(&self) -> (x: i64)
        ensures
            x == self@.x,
        no_unwind
    {
        self.vector.x
    }

    pub fn y(&self) -> (y: i64)
        ensures
            y == self@.y,
        no_unwind
    {
        self.vector.y
    }

    pub fn z(&self) -> (z: i64)
        ensures
            z == self@.z,
        no_unwind
    {
        self.vector.z
    }

    /// The vector to hand to the rigid body: horizontal components times
    /// [`COEFFICIENT_OF_ACCELERATION`], vertical component as it is.
    pub fn accelerated_vector(&self) -> (accelerated: Vector3)
        requires
            i64::MIN <= COEFFICIENT_OF_ACCELERATION * self@.x <= i64::MAX,
            i64::MIN <= COEFFICIENT_OF_ACCELERATION * self@.z <= i64::MAX,
        ensures
            accelerated@ == self@.accelerated(),
            accelerated@ == (SpecVector3 { x: 8 * self@.x, y: self@.y, z: 8 * self@.z }),
        no_unwind
    {
        Vector3 {
            x: self.vector.x * COEFFICIENT_OF_ACCELERATION,
            y: self.vector.y,
            z: self.vector.z * COEFFICIENT_OF_ACCELERATION,
        }
    }

    /// Adds the body's look vector: a step forwards.
    pub fn add_forward(&mut self, look_forward_vector: Vector3)
        requires
            old(self)@.plus(look_forward_vector@).representable(),
        ensures
            final(self)@ == old(self)@.plus(look_forward_vector@),
        no_unwind
    {
        self.vector.x = self.vector.x + look_forward_vector.x;
        self.vector.y = self.vector.y + look_forward_vector.y;
        self.vector.z = self.vector.z + look_forward_vector.z;
    }

    /// Subtracts the body's look vector: a step backwards.
    pub fn sub_backward(&mut self, look_backward_vector: Vector3)
        requires
            old(self)@.minus(look_backward_vector@).representable(),
        ensures
            final(self)@ == old(self)@.minus(look_backward_vector@),
        no_unwind
    {
        self.vector.x = self.vector.x - look_backward_vector.x;
        self.vector.y = self.vector.y - look_backward_vector.y;
        self.vector.z = self.vector.z - look_backward_vector.z;
    }

    /// Adds the body's side vector: a step to the left.
    pub fn add_left(&mut self, look_side_vector: Vector3)
        requires
            old(self)@.plus(look_side_vector@).representable(),
        ensures
            final(self)@ == old(self)@.plus(look_side_vector@),
        no_unwind
    {
        self.vector.x = self.vector.x + look_side_vector.x;
        self.vector.y = self.vector.y + look_side_vector.y;
        self.vector.z = self.vector.z + look_side_vector.z;
    }

    /// Subtracts the body's side vector: a step to the right, the opposite
    /// of [`Velocity::add_left`].
    pub fn add_right(&mut self, look_side_vector: Vector3)
        requires
            old(self)@.minus(look_side_vector@).representable(),
        ensures
            final(self)@ == old(self)@.minus(look_side_vector@),
        no_unwind
    {
        self.vector.x = self.vector.x - look_side_vector.x;
        self.vector.y = self.vector.y - look_side_vector.y;
        self.vector.z = self.vector.z - look_side_vector.z;
    }

    /// Adds the body's up vector and, on top of it, [`JUMP_IMPULSE`] to the
    /// vertical component.
    pub fn add_vertical_up(&mut self, look_vertical_up: Vector3)
        requires
            old(self)@.plus(look_vertical_up@).raised(JUMP_IMPULSE as int).representable(),
        ensures
            final(self)@ == old(self)@.plus(look_vertical_up@).raised(JUMP_IMPULSE as int),
        no_unwind
    {
        let y: i128 = self.vector.y as i128 + look_vertical_up.y as i128 + JUMP_IMPULSE as i128;
        self.vector.x = self.vector.x + look_vertical_up.x;
        self.vector.y = y as i64;
        self.vector.z = self.vector.z + look_vertical_up.z;
    }
}

} // verus!
