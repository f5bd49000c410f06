//! The jump state machine: it remembers where and how fast a jump began, and
//! decides frame by frame whether the player may steer and may jump.

use vstd::prelude::*;
use crate::vector::{Position, SpecVector3, Velocity};

verus! {

/// Rise above the jump's origin from which the jump key has no effect any more.
pub const MAX_Y_JUMP: i64 = 500_000;

/// Vertical speed below which the player counts as falling.
pub const MIN_Y_TO_CONSIDER_FALLING: i64 = -100_000;

/// Vertical speed above which the player counts as rising.
pub const MIN_Y_TO_CONSIDER_JUMPING: i64 = 100_000;

/// Number of frames in a row without clear vertical motion after which a
/// jump is over.
pub const NUMBER_OF_CYCLE_TO_CONSIDER_NOT_FALLING: i8 = 2;

/// Whether a velocity is clearly directed downwards.
pub open spec fn falling(velocity: SpecVector3) -> bool {
    velocity.y < MIN_Y_TO_CONSIDER_FALLING
}

/// Whether a velocity is clearly directed upwards.
pub open spec fn rising(velocity: SpecVector3) -> bool {
    velocity.y > MIN_Y_TO_CONSIDER_JUMPING
}

/// Whether a velocity is neither falling nor rising.
pub open spec fn neutral(velocity: SpecVector3) -> bool {
    MIN_Y_TO_CONSIDER_FALLING <= velocity.y <= MIN_Y_TO_CONSIDER_JUMPING
}

/// What a [`Jump`] holds, as mathematical values.
pub struct JumpView {
    /// Where the jump in progress began.
    pub origin_position: Option<SpecVector3>,
    /// The velocity with which the jump in progress began.
    pub origin_velocity: Option<SpecVector3>,
    /// Neutral frames seen in a row, up to the last frame.
    pub neutral_frames: nat,
    /// Whether the movement keys steer the player.
    pub can_move: bool,
}

impl JumpView {
    /// The state of a player that has not jumped yet.
    pub open spec fn initial() -> JumpView {
        JumpView { origin_position: None, origin_velocity: None, neutral_frames: 0, can_move: true }
    }

    /// The two origins are recorded together or not at all.
    pub open spec fn is_paired(self) -> bool {
        self.origin_position is Some <==> self.origin_velocity is Some
    }

    /// A jump is in progress.
    pub open spec fn is_jump_initiated(self) -> bool {
        self.origin_velocity is Some
    }

    /// The state with both origins forgotten.
    pub open spec fn reset(self) -> JumpView {
        JumpView { origin_position: None, origin_velocity: None, ..self }
    }

    /// The state after one frame in which the body moves with `velocity`.
    ///
    /// Without a jump in progress the player may move. During a jump it may
    /// not. A neutral frame is counted, a falling or rising one starts the
    /// count over, so that only neutral frames in a row add up; the neutral
    /// frame that completes [`NUMBER_OF_CYCLE_TO_CONSIDER_NOT_FALLING`] ends
    /// the jump instead: the record is cleared, the count starts over and the
    /// player may move.
    pub open spec fn updated(self, velocity: SpecVector3) -> JumpView {
        if !self.is_jump_initiated() {
            JumpView { can_move: true, ..self }
        } else if !neutral(velocity) {
            JumpView { neutral_frames: 0, can_move: false, ..self }
        } else if self.neutral_frames + 1 >= NUMBER_OF_CYCLE_TO_CONSIDER_NOT_FALLING {
            JumpView::initial()
        } else {
            JumpView { neutral_frames: self.neutral_frames + 1, can_move: false, ..self }
        }
    }

    /// The state after one frame for each velocity of `velocities`, in order.
    pub open spec fn after_frames(self, velocities: Seq<SpecVector3>) -> JumpView
        decreases velocities.len(),
    {
        if velocities.len() == 0 {
            self
        } else {
            self.after_frames(velocities.drop_last()).updated(velocities.last())
        }
    }

    /// Whether the jump key takes effect at `position` and `velocity`: never
    /// while falling; otherwise always without a recorded origin, and with
    /// one as long as the player is less than [`MAX_Y_JUMP`] above it.
    pub open spec fn can_jump(self, position: SpecVector3, velocity: SpecVector3) -> bool {
        &&& !falling(velocity)
        &&& self.origin_position matches Some(origin) ==> position.y - origin.y < MAX_Y_JUMP
    }

    /// The state with `position` recorded as origin, unless one is recorded already.
    pub open spec fn with_origin_position(self, position: SpecVector3) -> JumpView {
        if self.origin_position is None {
            JumpView { origin_position: Some(position), ..self }
        } else {
            self
        }
    }

    /// The state with `velocity` recorded as origin, unless one is recorded already.
    pub open spec fn with_origin_velocity(self, velocity: SpecVector3) -> JumpView {
        if self.origin_velocity is None {
            JumpView { origin_velocity: Some(velocity), ..self }
        } else {
            self
        }
    }

    /// The state after the jump key took effect at `position` and `velocity`.
    pub open spec fn jumped(self, position: SpecVector3, velocity: SpecVector3) -> JumpView {
        self.with_origin_position(position).with_origin_velocity(velocity)
    }
}

/// Two neutral frames end a jump, and one does not: from a jump with no
/// neutral frame counted yet, the first neutral frame keeps the record and
/// keeps the player from steering; the second clears the record, sets the
/// count back to zero and lets the player steer again.
pub proof fn lemma_two_neutral_frames_end_jump(jump: JumpView, first: SpecVector3, second: SpecVector3)
    requires
        jump.is_jump_initiated(),
        jump.neutral_frames == 0,
        neutral(first),
        neutral(second),
    ensures
        jump.updated(first).origin_position == jump.origin_position,
        jump.updated(first).origin_velocity == jump.origin_velocity,
        !jump.updated(first).can_move,
        jump.updated(first).updated(second) == JumpView::initial(),
{
}

/// A single neutral frame between frames with clear vertical motion does
/// not end a jump: after a neutral, a falling or rising, and another neutral
/// frame the record is what it was, the player cannot steer and one neutral
/// frame is counted.
pub proof fn lemma_interrupted_neutral_frames_keep_jump(
    jump: JumpView,
    first: SpecVector3,
    between: SpecVector3,
    second: SpecVector3,
)
    requires
        jump.is_jump_initiated(),
        jump.neutral_frames == 0,
        neutral(first),
        falling(between) || rising(between),
        neutral(second),
    ensures
        jump.updated(first).updated(between).updated(second) == (JumpView {
            neutral_frames: 1,
            can_move: false,
            ..jump
        }),
{
}

/// The length of the run of neutral velocities at the end of `velocities`.
pub open spec fn neutral_run(velocities: Seq<SpecVector3>) -> nat
    decreases velocities.len(),
{
    if velocities.len() == 0 || !neutral(velocities.last()) {
        0
    } else {
        neutral_run(velocities.drop_last()) + 1
    }
}

/// Whether every run of neutral velocities in `velocities` is shorter than
/// `length`: the run at the end of each of its prefixes is.
pub open spec fn neutral_runs_below(velocities: Seq<SpecVector3>, length: nat) -> bool
    decreases velocities.len(),
{
    velocities.len() == 0 || (neutral_run(velocities) < length && neutral_runs_below(
        velocities.drop_last(),
        length,
    ))
}

/// A jump lasts as long as its neutral frames do not come in a row: while
/// every run of neutral frames since it began is shorter than
/// [`NUMBER_OF_CYCLE_TO_CONSIDER_NOT_FALLING`], the record is what it was,
/// the count is the length of the run at the end and the player cannot
/// steer, however many neutral frames there were in all.
pub proof fn lemma_jump_lasts_while_neutral_runs_are_short(jump: JumpView, velocities: Seq<SpecVector3>)
    requires
        jump.is_jump_initiated(),
        jump.neutral_frames == 0,
        neutral_runs_below(velocities, NUMBER_OF_CYCLE_TO_CONSIDER_NOT_FALLING as nat),
    ensures
        jump.after_frames(velocities) == (JumpView {
            neutral_frames: neutral_run(velocities),
            can_move: if velocities.len() == 0 { jump.can_move } else { false },
            ..jump
        }),
    decreases velocities.len(),
{
    if velocities.len() > 0 {
        lemma_jump_lasts_while_neutral_runs_are_short(jump, velocities.drop_last());
    }
}

/// The frame that completes the first run of
/// [`NUMBER_OF_CYCLE_TO_CONSIDER_NOT_FALLING`] neutral frames ends the jump:
/// after it the state is that of a player that has not jumped yet.
pub proof fn lemma_jump_ends_when_neutral_run_completes(jump: JumpView, velocities: Seq<SpecVector3>)
    requires
        jump.is_jump_initiated(),
        jump.neutral_frames == 0,
        velocities.len() > 0,
        neutral_runs_below(velocities.drop_last(), NUMBER_OF_CYCLE_TO_CONSIDER_NOT_FALLING as nat),
        neutral_run(velocities) == NUMBER_OF_CYCLE_TO_CONSIDER_NOT_FALLING,
    ensures
        jump.after_frames(velocities) == JumpView::initial(),
{
    lemma_jump_lasts_while_neutral_runs_are_short(jump, velocities.drop_last());
}

/// After any frame the player can steer exactly if no jump is in progress.
pub proof fn lemma_steering_only_without_jump(jump: JumpView, velocity: SpecVector3)
    ensures
        jump.updated(velocity).can_move <==> !jump.updated(velocity).is_jump_initiated(),
{
}

/// A frame with clear vertical motion never ends a jump: it keeps the
/// record, keeps the player from steering and starts the count of neutral
/// frames over.
pub proof fn lemma_clear_motion_restarts_count(jump: JumpView, velocity: SpecVector3)
    requires
        jump.is_jump_initiated(),
        falling(velocity) || rising(velocity),
    ensures
        jump.updated(velocity) == (JumpView { neutral_frames: 0, can_move: false, ..jump }),
{
}

/// Once a jump began at `origin`, the jump key takes effect exactly while the
/// player is not falling and has risen by less than [`MAX_Y_JUMP`]: a rise of
/// exactly [`MAX_Y_JUMP`] is refused.
pub proof fn lemma_jump_allowed_below_max_rise(
    jump: JumpView,
    origin: SpecVector3,
    origin_velocity: SpecVector3,
    position: SpecVector3,
    velocity: SpecVector3,
)
    requires
        jump.origin_position is None,
    ensures
        jump.jumped(origin, origin_velocity).can_jump(position, velocity) <==> !falling(velocity)
            && position.y - origin.y < MAX_Y_JUMP,
        position.y - origin.y == MAX_Y_JUMP ==> !jump.jumped(origin, origin_velocity).can_jump(
            position,
            velocity,
        ),
{
}

/// The first jump wins: it records both origins, and a second one before a
/// reset changes nothing. After a reset the next jump records anew.
pub proof fn lemma_first_jump_wins(
    jump: JumpView,
    position: SpecVector3,
    velocity: SpecVector3,
    later_position: SpecVector3,
    later_velocity: SpecVector3,
)
    requires
        jump.origin_position is None,
        jump.origin_velocity is None,
    ensures
        jump.jumped(position, velocity).origin_position == Some(position),
        jump.jumped(position, velocity).origin_velocity == Some(velocity),
        jump.jumped(position, velocity).jumped(later_position, later_velocity) == jump.jumped(
            position,
            velocity,
        ),
        jump.jumped(position, velocity).reset() == jump,
        jump.jumped(position, velocity).reset().jumped(later_position, later_velocity)
            == jump.jumped(later_position, later_velocity),
{
}

/// The two origins stay together: the initial state holds neither, and a
/// frame, a jump or a reset takes a state that holds both or neither to
/// another such state.
pub proof fn lemma_record_stays_paired(
    jump: JumpView,
    frame_velocity: SpecVector3,
    position: SpecVector3,
    velocity: SpecVector3,
)
    requires
        jump.is_paired(),
    ensures
        JumpView::initial().is_paired(),
        jump.updated(frame_velocity).is_paired(),
        jump.jumped(position, velocity).is_paired(),
        jump.reset().is_paired(),
{
}

/// The jump state of one player.
pub struct Jump {
    jump_origin_position_opt: Option<Position>,
    jump_origin_velocity_opt: Option<Velocity>,
    number_of_cycle_player_is_not_falling: i8,
    can_move: bool,
}

impl View for Jump {
    type V = JumpView;

    closed spec fn view(&self) -> JumpView {
        JumpView {
            origin_position: match self.jump_origin_position_opt {
                Some(position) => Some(position@),
                None => None,
            },
            origin_velocity: match self.jump_origin_velocity_opt {
                Some(velocity) => Some(velocity@),
                None => None,
            },
            neutral_frames: self.number_of_cycle_player_is_not_falling as nat,
            can_move: self.can_move,
        }
    }
}

impl Jump {
    #[verifier::type_invariant]
    spec fn counter_below_threshold(self) -> bool {
        0 <= self.number_of_cycle_player_is_not_falling < NUMBER_OF_CYCLE_TO_CONSIDER_NOT_FALLING
    }

    pub fn new() -> (jump: Jump)
        ensures
            jump@ == JumpView::initial(),
        no_unwind
    {
        Jump {
            jump_origin_position_opt: None,
            jump_origin_velocity_opt: None,
            number_of_cycle_player_is_not_falling: 0,
            can_move: true,
        }
    }

    /// Advances the state by one frame in which the body moves with `velocity`.
    pub fn update_jump(&mut self, velocity: &Velocity)
        ensures
            final(self)@ == old(self)@.updated(velocity@),
        no_unwind
    {
        proof {
            use_type_invariant(&*self);
        }
        if let Some(_) = self.jump_origin_velocity_opt {
            let mut frames: i8 = 0;
            if !self.is_falling(velocity) && !self.is_upping(velocity) {
                frames = self.number_of_cycle_player_is_not_falling + 1;
            }
            if frames == NUMBER_OF_CYCLE_TO_CONSIDER_NOT_FALLING {
                self.number_of_cycle_player_is_not_falling = 0;
                self.reset_jump();
                proof {
                    use_type_invariant(&*self);
                }
                self.can_move = true;
            } else {
                self.number_of_cycle_player_is_not_falling = frames;
                self.can_move = false;
            }
        } else {
            self.can_move = true;
        }
    }

    pub fn can_move(&self) -> (can_move: bool)
        ensures
            can_move == self@.can_move,
        no_unwind
    {
        self.can_move
    }

    pub fn is_falling(&self, velocity: &Velocity) -> (is_falling: bool)
        ensures
            is_falling == falling(velocity@),
        no_unwind
    {
        velocity.y() < MIN_Y_TO_CONSIDER_FALLING
    }

    pub fn is_upping(&self, velocity: &Velocity) -> (is_upping: bool)
        ensures
            is_upping == rising(velocity@),
        no_unwind
    {
        velocity.y() > MIN_Y_TO_CONSIDER_JUMPING
    }

    pub fn is_jump_initiated(&self) -> (initiated: bool)
        ensures
            initiated == self@.is_jump_initiated(),
        no_unwind
    {
        match self.jump_origin_velocity_opt {
            Some(_) => true,
            None => false,
        }
    }

    /// Whether the jump key takes effect for a body at `current_position`
    /// that moves with `velocity`. The state is left as it was.
    pub fn can_jump(&mut self, current_position: &Position, velocity: &Velocity) -> (allowed: bool)
        ensures
            *final(self) == *old(self),
            allowed == old(self)@.can_jump(current_position@, velocity@),
            falling(velocity@) ==> !allowed,
        no_unwind
    {
        if self.is_falling(velocity) {
            return false;
        }
        if let Some(jump_origin_position) = &self.jump_origin_position_opt {
            let delta_y: i128 = current_position.vector().y as i128 - jump_origin_position.vector().y as i128;
            return delta_y < MAX_Y_JUMP as i128;
        }
        true
    }

    /// Records `current_position` and `velocity` as the origin of a jump,
    /// unless a jump is in progress already.
    pub fn jump(&mut self, current_position: &Position, velocity: &Velocity)
        ensures
            final(self)@ == old(self)@.jumped(current_position@, velocity@),
        no_unwind
    {
        self.set_jump_origin_position(current_position);
        self.set_jump_origin_velocity(velocity);
    }

    /// Forgets both origins: no jump is in progress afterwards.
    pub fn reset_jump(&mut self)
        ensures
            final(self)@ == old(self)@.reset(),
        no_unwind
    {
        proof {
            use_type_invariant(&*self);
        }
        self.jump_origin_position_opt = None;
        self.jump_origin_velocity_opt = None;
    }

    /// The first half of [`Jump::jump`]: called alone it leaves the record
    /// half written.
    pub fn set_jump_origin_position(&mut self, position: &Position)
        ensures
            final(self)@ == old(self)@.with_origin_position(position@),
        no_unwind
    {
        proof {
            use_type_invariant(&*self);
        }
        if let None = self.jump_origin_position_opt {
            self.jump_origin_position_opt = Some(*position);
        }
    }

    /// The second half of [`Jump::jump`]: called alone it leaves the record
    /// half written.
    pub fn set_jump_origin_velocity(&mut self, velocity: &Velocity)
        ensures
            final(self)@ == old(self)@.with_origin_velocity(velocity@),
        no_unwind
    {
        proof {
            use_type_invariant(&*self);
        }
        if let None = self.jump_origin_velocity_opt {
            self.jump_origin_velocity_opt = Some(*velocity);
        }
    }

    /// The velocity with which the jump in progress began, or `Err(())`
    /// where none is in progress. The state is left as it was.
    pub fn jumping_velocity(&mut self) -> (origin: Result<Velocity, ()>)
        ensures
            *final(self) == *old(self),
            match origin {
                Ok(velocity) => old(self)@.origin_velocity == Some(velocity@),
                Err(_) => old(self)@.origin_velocity is None,
            },
        no_unwind
    {
        if let Some(jumping_velocity) = &self.jump_origin_velocity_opt {
            return Ok(*jumping_velocity);
        }
        Err(())
    }
}

} // verus!
