//! The controller itself: one frame of it turns what the rigid body reports,
//! the keys held and the jump state into the body's next linear velocity and
//! the orientation of camera and body.

use vstd::prelude::*;
use crate::input::InputEvent;
use crate::jump::{falling, Jump, JumpView};
use crate::keyboard::Keyboard;
use crate::mouse::{Mouse, MouseView};
use crate::vector::{
    Position, SpecVector3, Vector3, Velocity, COEFFICIENT_OF_ACCELERATION, JUMP_IMPULSE, UNIT,
};

verus! {

/// Steepest pitch of the camera, upwards and downwards: 90 degrees.
pub const MAX_PITCH: i64 = 90_000_000;

/// Largest magnitude that the controller accepts for a component of the
/// vectors it reads from the body. It leaves room for a frame's sums and for
/// the acceleration within an `i64`.
pub const COMPONENT_LIMIT: i64 = 100_000_000_000_000_000;

/// What the controller reads from the rigid body at the start of a frame.
#[derive(Clone, Copy, Debug)]
pub struct BodyState {
    /// Current linear velocity; only its vertical component is read.
    pub linear_velocity: Vector3,
    /// Current position in the world.
    pub global_position: Vector3,
    /// Direction in which the body looks.
    pub look_vector: Vector3,
    /// The body's side vector: the left key moves along it, the right key
    /// against it.
    pub side_vector: Vector3,
    /// Direction above the body.
    pub up_vector: Vector3,
}

impl BodyState {
    /// Whether every component that enters the frame's arithmetic stays
    /// within [`COMPONENT_LIMIT`]. The position is free: it is only compared.
    pub open spec fn bounded(&self) -> bool {
        &&& -COMPONENT_LIMIT <= self.linear_velocity.y <= COMPONENT_LIMIT
        &&& self.look_vector@.within(COMPONENT_LIMIT as int)
        &&& self.side_vector@.within(COMPONENT_LIMIT as int)
        &&& self.up_vector@.within(COMPONENT_LIMIT as int)
    }

    /// Tests [`BodyState::bounded`]: what a caller has to know of a body
    /// before it runs a frame on it.
    pub fn is_bounded(&self) -> (bounded: bool)
        ensures
            bounded == self.bounded(),
        no_unwind
    {
        -COMPONENT_LIMIT <= self.linear_velocity.y && self.linear_velocity.y <= COMPONENT_LIMIT
            && self.look_vector.is_within(COMPONENT_LIMIT) && self.side_vector.is_within(
            COMPONENT_LIMIT,
        ) && self.up_vector.is_within(COMPONENT_LIMIT)
    }
}

/// Orientation of the view, in fixed-point degrees.
#[derive(Clone, Copy, Debug, PartialEq, Eq, Structural)]
pub struct PointOfView {
    /// Angle of the camera about its lateral axis.
    pub camera_pitch: i64,
    /// Angle of the body about the vertical axis.
    pub body_yaw: i64,
}

/// What one frame asks of the scene.
#[derive(Clone, Copy, Debug, PartialEq, Eq, Structural)]
pub struct FrameUpdate {
    /// Linear velocity to give to the rigid body.
    pub linear_velocity: Vector3,
    /// Rotations to give to the camera and to the body.
    pub point_of_view: PointOfView,
}

/// `value`, or the nearer end of `low..=high` where it lies outside.
pub open spec fn clamped(value: int, low: int, high: int) -> int {
    if value < low {
        low
    } else if value > high {
        high
    } else {
        value
    }
}

/// The pull of a pair of opposite keys: 1 where only the first is held, -1
/// where only the second is, 0 where both or neither are.
pub open spec fn pull(positive: bool, negative: bool) -> int {
    (if positive { 1int } else { 0int }) - (if negative { 1int } else { 0int })
}

/// A pair of opposite keys moves the player by a direction, by its opposite
/// or not at all: held together they cancel.
pub proof fn lemma_opposite_keys_cancel(direction: SpecVector3, positive: bool, negative: bool)
    ensures
        direction.times(pull(positive, negative)) == if positive == negative {
            SpecVector3::vertical(0)
        } else if positive {
            direction
        } else {
            SpecVector3::vertical(0).minus(direction)
        },
{
    if positive == negative {
        assert(direction.times(0) == SpecVector3::vertical(0));
    } else if positive {
        assert(direction.times(1) == direction);
    } else {
        assert(direction.times(-1) == SpecVector3::vertical(0).minus(direction));
    }
}

/// What a [`Player`] holds, as mathematical values.
pub struct PlayerView {
    pub keyboard: Keyboard,
    pub mouse: MouseView,
    pub jump: JumpView,
}

impl PlayerView {
    /// A player with no key held, the view straight ahead and no jump begun.
    pub open spec fn initial() -> PlayerView {
        PlayerView {
            keyboard: Keyboard {
                move_forward: false,
                move_backward: false,
                move_left: false,
                move_right: false,
                jump: false,
            },
            mouse: MouseView { vertical_axis: 0, horizontal_axis: 0 },
            jump: JumpView::initial(),
        }
    }

    /// The player after `event`: keys and pointer take it in, the jump state
    /// does not see it.
    pub open spec fn after_event(self, event: InputEvent) -> PlayerView {
        PlayerView {
            keyboard: self.keyboard.after_event(event),
            mouse: self.mouse.after_event(event),
            jump: self.jump,
        }
    }

    /// The jump state once the frame has been counted: the body's vertical
    /// velocity alone decides how.
    pub open spec fn jump_at_frame(self, body: BodyState) -> JumpView {
        self.jump.updated(SpecVector3::vertical(body.linear_velocity.y as int))
    }

    /// The velocity that the movement keys ask for: the body's vertical
    /// velocity, and where the player may move, the look vector by the pull
    /// of forward against backward plus the side vector by the pull of left
    /// against right.
    pub open spec fn steered_velocity(self, body: BodyState) -> SpecVector3 {
        let vertical = SpecVector3::vertical(body.linear_velocity.y as int);
        if self.jump_at_frame(body).can_move {
            vertical.plus(
                body.look_vector@.times(pull(self.keyboard.move_forward, self.keyboard.move_backward)),
            ).plus(body.side_vector@.times(pull(self.keyboard.move_left, self.keyboard.move_right)))
        } else {
            vertical
        }
    }

    /// Whether the jump key is held and takes effect this frame.
    pub open spec fn jumps(self, body: BodyState) -> bool {
        self.keyboard.jump && self.jump_at_frame(body).can_jump(
            body.global_position@,
            self.steered_velocity(body),
        )
    }

    /// The steered velocity, with the up vector and the jump impulse on top
    /// where the jump key takes effect.
    pub open spec fn wanted_velocity(self, body: BodyState) -> SpecVector3 {
        if self.jumps(body) {
            self.steered_velocity(body).plus(body.up_vector@).raised(JUMP_IMPULSE as int)
        } else {
            self.steered_velocity(body)
        }
    }

    /// The jump state at the end of the frame: where the jump key took
    /// effect, position and wanted velocity are recorded as the origin.
    pub open spec fn jump_after_move(self, body: BodyState) -> JumpView {
        if self.jumps(body) {
            self.jump_at_frame(body).jumped(body.global_position@, self.wanted_velocity(body))
        } else {
            self.jump_at_frame(body)
        }
    }

    /// The velocity of the frame before acceleration: the wanted velocity,
    /// but during a jump with the horizontal components of the jump's origin.
    pub open spec fn velocity_after_move(self, body: BodyState) -> SpecVector3 {
        match self.jump_after_move(body).origin_velocity {
            Some(origin) => SpecVector3 { x: origin.x, y: self.wanted_velocity(body).y, z: origin.z },
            None => self.wanted_velocity(body),
        }
    }

    /// Whether a jump in progress ends on this frame.
    pub open spec fn jump_ends(self, body: BodyState) -> bool {
        self.jump.is_jump_initiated() && !self.jump_at_frame(body).is_jump_initiated()
    }

    /// The player at the end of the frame: only the jump state changes.
    pub open spec fn after_move(self, body: BodyState) -> PlayerView {
        PlayerView { jump: self.jump_after_move(body), ..self }
    }

    /// The pitch of the camera: the accumulated pitch, held within
    /// [`MAX_PITCH`] either way.
    pub open spec fn camera_pitch(self) -> int {
        clamped(self.mouse.vertical_axis, -MAX_PITCH, MAX_PITCH as int)
    }

    /// The yaw of the body: the accumulated yaw as it is.
    pub open spec fn body_yaw(self) -> int {
        self.mouse.horizontal_axis
    }
}

/// With no jump in progress and the forward key alone held, the player moves
/// along the body's look vector: that vector is added to the body's vertical
/// velocity, and acceleration scales the horizontal components by
/// [`COEFFICIENT_OF_ACCELERATION`].
pub proof fn lemma_forward_key_follows_look(player: PlayerView, body: BodyState)
    requires
        !player.jump.is_jump_initiated(),
        player.keyboard.move_forward,
        !player.keyboard.move_backward,
        !player.keyboard.move_left,
        !player.keyboard.move_right,
        !player.keyboard.jump,
    ensures
        player.velocity_after_move(body) == SpecVector3::vertical(body.linear_velocity.y as int).plus(
            body.look_vector@,
        ),
        player.velocity_after_move(body).accelerated() == (SpecVector3 {
            x: COEFFICIENT_OF_ACCELERATION * body.look_vector.x,
            y: body.linear_velocity.y + body.look_vector.y,
            z: COEFFICIENT_OF_ACCELERATION * body.look_vector.z,
        }),
        player.after_move(body).jump == (JumpView { can_move: true, ..player.jump }),
{
    lemma_opposite_keys_cancel(body.look_vector@, true, false);
    lemma_opposite_keys_cancel(body.side_vector@, false, false);
}

/// The jump key, held by a player that has no jump in progress and is not
/// falling, begins a jump: the body's up vector and [`JUMP_IMPULSE`] are added
/// to the velocity, and the body's position and that velocity become the
/// origin of the jump.
pub proof fn lemma_jump_key_begins_jump(player: PlayerView, body: BodyState)
    requires
        player.jump.origin_position is None,
        player.jump.origin_velocity is None,
        player.keyboard.jump,
        !falling(player.steered_velocity(body)),
    ensures
        player.wanted_velocity(body) == player.steered_velocity(body).plus(body.up_vector@).raised(
            JUMP_IMPULSE as int,
        ),
        player.velocity_after_move(body) == player.wanted_velocity(body),
        player.after_move(body).jump.origin_position == Some(body.global_position@),
        player.after_move(body).jump.origin_velocity == Some(player.wanted_velocity(body)),
{
}

/// While a jump lasts the player cannot steer: on a frame that does not end
/// the jump the movement keys are ignored, the origin stays what it was and
/// the horizontal velocity is that of the origin. Only the vertical velocity
/// is the frame's own.
pub proof fn lemma_jump_locks_horizontal_motion(player: PlayerView, body: BodyState)
    requires
        player.jump.origin_velocity is Some,
        player.jump_at_frame(body).is_jump_initiated(),
    ensures
        player.steered_velocity(body) == SpecVector3::vertical(body.linear_velocity.y as int),
        player.after_move(body).jump.origin_velocity == player.jump.origin_velocity,
        player.velocity_after_move(body) == (SpecVector3 {
            x: player.jump.origin_velocity->0.x,
            y: player.wanted_velocity(body).y,
            z: player.jump.origin_velocity->0.z,
        }),
{
}

/// A jump ended on a frame exactly if one was in progress before the frame
/// and the player can steer after it, whether or not the next jump began on
/// the same frame.
pub proof fn lemma_jump_end_shows_in_steering(player: PlayerView, body: BodyState)
    ensures
        player.jump_ends(body) <==> player.jump.is_jump_initiated() && player.after_move(
            body,
        ).jump.can_move,
{
}

/// Neither a frame nor an event parts the two origins of a jump: a player
/// whose jump state holds both or neither goes on doing so.
pub proof fn lemma_player_keeps_record_paired(player: PlayerView, body: BodyState, event: InputEvent)
    requires
        player.jump.is_paired(),
    ensures
        PlayerView::initial().jump.is_paired(),
        player.after_move(body).jump.is_paired(),
        player.after_event(event).jump.is_paired(),
{
}

/// Largest magnitude of a component of a velocity that a frame builds from
/// a bounded body: five vectors and the jump impulse add up to it.
spec fn velocity_limit() -> int {
    6 * COMPONENT_LIMIT + UNIT
}

/// The controller of one player.
pub struct Player {
    keyboard: Keyboard,
    mouse: Mouse,
    jump: Jump,
}

impl View for Player {
    type V = PlayerView;

    closed spec fn view(&self) -> PlayerView {
        PlayerView { keyboard: self.keyboard, mouse: self.mouse@, jump: self.jump@ }
    }
}

impl Player {
    #[verifier::type_invariant]
    spec fn record_is_paired_and_bounded(self) -> bool {
        &&& self.jump@.is_paired()
        &&& self.jump@.origin_velocity matches Some(origin) ==> origin.within(velocity_limit())
    }

    pub fn new() -> (player: Player)
        ensures
            player@ == PlayerView::initial(),
            player@.jump.is_paired(),
        no_unwind
    {
        Player {
            keyboard: Keyboard::new(false, false, false, false, false),
            mouse: Mouse::new(0, 0),
            jump: Jump::new(),
        }
    }

    /// Whether a jump is in progress.
    pub fn is_jump_initiated(&self) -> (initiated: bool)
        ensures
            initiated == self@.jump.is_jump_initiated(),
            self@.jump.is_paired(),
        no_unwind
    {
        proof {
            use_type_invariant(self);
        }
        self.jump.is_jump_initiated()
    }

    /// Whether the movement keys steer the player.
    pub fn can_move(&self) -> (can_move: bool)
        ensures
            can_move == self@.jump.can_move,
        no_unwind
    {
        self.jump.can_move()
    }

    /// Tests whether `event` can be taken in: whether both accumulators of
    /// the pointer still fit once its motion is added.
    pub fn accepts(&self, event: &InputEvent) -> (accepted: bool)
        ensures
            accepted == self@.mouse.after_event(*event).representable(),
        no_unwind
    {
        self.mouse.accepts(event)
    }

    /// Takes in one input event.
    pub fn process_input_event(&mut self, event: &InputEvent)
        requires
            old(self)@.mouse.after_event(*event).representable(),
        ensures
            final(self)@ == old(self)@.after_event(*event),
            final(self)@.jump.is_paired(),
        no_unwind
    {
        proof {
            use_type_invariant(&*self);
        }
        self.keyboard.process_keyboard_event(event);
        self.mouse.process_mouse_event(event);
    }

    /// Runs the first phase of a frame: counts the frame for the jump,
    /// builds the velocity from the keys held, begins a jump where the jump
    /// key takes effect, and returns the accelerated velocity for the body.
    pub fn move_position(&mut self, body: &BodyState) -> (linear_velocity: Vector3)
        requires
            body.bounded(),
        ensures
            final(self)@ == old(self)@.after_move(*body),
            final(self)@.jump.is_paired(),
            linear_velocity@ == old(self)@.velocity_after_move(*body).accelerated(),
        no_unwind
    {
        proof {
            use_type_invariant(&*self);
        }
        let mut velocity = Velocity::new(Vector3::new(0, body.linear_velocity.y, 0));
        let current_position = Position::new(body.global_position);
        self.jump.update_jump(&velocity);
        let can_move = self.jump.can_move();

        if self.keyboard.move_forward && can_move {
            velocity.add_forward(body.look_vector);
        }
        if self.keyboard.move_backward && can_move {
            velocity.sub_backward(body.look_vector);
        }
        if self.keyboard.move_left && can_move {
            velocity.add_left(body.side_vector);
        }
        if self.keyboard.move_right && can_move {
            velocity.add_right(body.side_vector);
        }
        proof {
            lemma_opposite_keys_cancel(body.look_vector@, self.keyboard.move_forward, self.keyboard.move_backward);
            lemma_opposite_keys_cancel(body.side_vector@, self.keyboard.move_left, self.keyboard.move_right);
        }

        if self.keyboard.jump && self.jump.can_jump(&current_position, &velocity) {
            velocity.add_vertical_up(body.up_vector);
            self.jump.jump(&current_position, &velocity);
        }
        if self.jump.is_jump_initiated() {
            let is_jumping_velocity = self.jump.jumping_velocity();
            if let Ok(jumping_velocity) = is_jumping_velocity {
                velocity = Velocity::new(Vector3::new(jumping_velocity.x(), velocity.y(), jumping_velocity.z()));
            }
        }
        velocity.accelerated_vector()
    }

    /// Runs the second phase of a frame: the rotations for camera and body.
    pub fn update_point_of_view(&self) -> (point_of_view: PointOfView)
        ensures
            point_of_view.camera_pitch == self@.camera_pitch(),
            point_of_view.body_yaw == self@.body_yaw(),
            -MAX_PITCH <= point_of_view.camera_pitch <= MAX_PITCH,
        no_unwind
    {
        let pitch: i64 = self.mouse.vertical_axis;
        let camera_pitch: i64 = if pitch < -MAX_PITCH {
            -MAX_PITCH
        } else if pitch > MAX_PITCH {
            MAX_PITCH
        } else {
            pitch
        };
        PointOfView { camera_pitch, body_yaw: self.mouse.horizontal_axis }
    }

    /// Runs one frame: [`Player::move_position`], then
    /// [`Player::update_point_of_view`].
    pub fn update_player(&mut self, body: &BodyState) -> (update: FrameUpdate)
        requires
            body.bounded(),
        ensures
            final(self)@ == old(self)@.after_move(*body),
            final(self)@.jump.is_paired(),
            update.linear_velocity@ == old(self)@.velocity_after_move(*body).accelerated(),
            update.point_of_view.camera_pitch == old(self)@.camera_pitch(),
            update.point_of_view.body_yaw == old(self)@.body_yaw(),
        no_unwind
    {
        let linear_velocity = self.move_position(body);
        let point_of_view = self.update_point_of_view();
        FrameUpdate { linear_velocity, point_of_view }
    }
}

} // verus!
