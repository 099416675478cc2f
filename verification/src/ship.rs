//! The ship: its state, the controls that steer it and the update that moves
//! it forward by one tick.

use vstd::prelude::*;
use crate::controls::Control;
use crate::units::{
    canonical, canonical_angle, clamp_to_i64, is_canonical, scale, scaled, FULL_TURN,
    HEADING_UNIT,
};
use crate::vector::{Heading, Vec2d, Vector};

verus! {

/// How fast a held rotation control turns the ship: 270 degrees a second,
/// which is as many microdegrees a microsecond.
pub const ROTATION_SPEED: i64 = 270;

/// The length of the impulse one tick of thrust adds to the velocity:
/// a fiftieth of a pixel, in nanopixels.
pub const THRUST: i64 = 20_000_000;

/// The radius of a ship: 16 pixels, in nanopixels.
pub const RADIUS: i64 = 16_000_000_000;

/// What one tick of thrust adds to a velocity component, in nanopixels, when
/// the matching heading component is `component` millionths: that share of
/// `THRUST`.
pub open spec fn impulse(component: int) -> int {
    scaled(component, THRUST as int)
}

/// A heading component of `HEADING_UNIT` millionths adds the whole of
/// `THRUST`, and every component adds its share without rounding: twenty
/// nanopixels for each millionth.
pub proof fn lemma_impulse_is_exact(component: int)
    ensures
        impulse(component) == 20 * component,
        impulse(HEADING_UNIT as int) == THRUST,
        impulse(0) == 0,
{
    assert(component * THRUST == 1_000_000 * (20 * component)) by (nonlinear_arith)
        requires
            THRUST == 20_000_000,
    ;
}

/// What one tick of thrust along `heading` adds to the velocity.
pub open spec fn impulse_along(heading: Vector) -> Vector {
    Vector { x: impulse(heading.x), y: impulse(heading.y) }
}

/// The state of a ship over the mathematical integers.
pub struct Body {
    /// Where the ship is, in nanopixels.
    pub position: Vector,
    /// Which way the ship points, in microdegrees.
    pub rotation: int,
    /// How far the ship moves each tick, in nanopixels.
    pub velocity: Vector,
    pub thrusters_on: bool,
    pub rotating_left: bool,
    pub rotating_right: bool,
}

impl Body {
    /// A body is well formed when its rotation is canonical and its position
    /// and velocity fit the machine.
    pub open spec fn wf(self) -> bool {
        &&& is_canonical(self.rotation)
        &&& self.position.fits()
        &&& self.velocity.fits()
    }

    /// The body a ship starts as: at `position`, pointing along rotation
    /// zero, at rest, with every control released.
    pub open spec fn at_rest(position: Vector) -> Body {
        Body {
            position,
            rotation: 0,
            velocity: Vector { x: 0, y: 0 },
            thrusters_on: false,
            rotating_left: false,
            rotating_right: false,
        }
    }

    /// Whether `control` is held.
    pub open spec fn holds(self, control: Control) -> bool {
        match control {
            Control::RotateLeft => self.rotating_left,
            Control::RotateRight => self.rotating_right,
            Control::Thrust => self.thrusters_on,
        }
    }

    /// The body with `control` held or released, and nothing else changed.
    pub open spec fn with_control(self, control: Control, pressed: bool) -> Body {
        match control {
            Control::RotateLeft => Body { rotating_left: pressed, ..self },
            Control::RotateRight => Body { rotating_right: pressed, ..self },
            Control::Thrust => Body { thrusters_on: pressed, ..self },
        }
    }

    /// The body turned as by a rotation control held for the signed time
    /// `dt`: to the right for a positive `dt`, to the left for a negative one.
    pub open spec fn rotated(self, dt: int) -> Body {
        Body { rotation: canonical(self.rotation + ROTATION_SPEED * dt), ..self }
    }

    /// The angle the held rotation controls add over the time `dt`, before
    /// it is wrapped: the left control takes `ROTATION_SPEED * dt` away, the
    /// right control adds as much.
    pub open spec fn turn(self, dt: int) -> int {
        (if self.rotating_right { ROTATION_SPEED * dt } else { 0 })
            - (if self.rotating_left { ROTATION_SPEED * dt } else { 0 })
    }

    /// The body after the rotation controls have acted for the time `dt`.
    pub open spec fn steered(self, dt: int) -> Body {
        Body { rotation: canonical(self.rotation + self.turn(dt)), ..self }
    }

    /// The body after one impulse of thrust along `heading`, if the
    /// thrusters are on. The impulse does not depend on the length of the tick.
    pub open spec fn thrusted(self, heading: Vector) -> Body {
        if self.thrusters_on {
            Body { velocity: self.velocity.plus(impulse_along(heading)).clamped(), ..self }
        } else {
            self
        }
    }

    /// The body moved by its velocity, once.
    pub open spec fn drifted(self) -> Body {
        Body { position: self.position.plus(self.velocity).clamped(), ..self }
    }

    /// The body one tick of length `dt` later: steered, then thrusted along
    /// `heading`, then moved by the new velocity.
    pub open spec fn advanced(self, dt: int, heading: Vector) -> Body {
        self.steered(dt).thrusted(heading).drifted()
    }
}

/// A ship: a body with a position, a rotation and a velocity, steered by
/// three controls.
#[derive(Clone, Copy, Debug, PartialEq, Eq)]
pub struct Ship {
    position: Vec2d,
    rotation: i64,
    velocity: Vec2d,
    thrusters_on: bool,
    rotating_left: bool,
    rotating_right: bool,
}

impl View for Ship {
    type V = Body;

    closed spec fn view(&self) -> Body {
        Body {
            position: self.position@,
            rotation: self.rotation as int,
            velocity: self.velocity@,
            thrusters_on: self.thrusters_on,
            rotating_left: self.rotating_left,
            rotating_right: self.rotating_right,
        }
    }
}

impl Ship {
    #[verifier::type_invariant]
    spec fn rotation_is_canonical(&self) -> bool {
        is_canonical(self.rotation as int)
    }

    /// A ship at `position`, pointing along rotation zero, at rest, with
    /// every control released.
    pub fn new(position: Vec2d) -> (ship: Ship)
        ensures
            ship@ == Body::at_rest(position@),
            ship@.wf(),
    {
        Ship {
            position,
            rotation: 0,
            velocity: Vec2d { x: 0, y: 0 },
            thrusters_on: false,
            rotating_left: false,
            rotating_right: false,
        }
    }

    /// A ship at `position`, turned to `rotation` wrapped into one turn and
    /// moving at `velocity`, with every control released.
    pub fn with_motion(position: Vec2d, rotation: i64, velocity: Vec2d) -> (ship: Ship)
        ensures
            ship@ == (Body {
                rotation: canonical(rotation as int),
                velocity: velocity@,
                ..Body::at_rest(position@)
            }),
            ship@.wf(),
    {
        Ship {
            position,
            rotation: canonical_angle(rotation as i128),
            velocity,
            thrusters_on: false,
            rotating_left: false,
            rotating_right: false,
        }
    }

    /// Advances the ship by one tick of `dt` microseconds.
    ///
    /// The held rotation controls turn it first, each by `ROTATION_SPEED`
    /// times `dt`, and the rotation is wrapped into one turn. If the
    /// thrusters are on, one impulse of length `THRUST` along `heading` is
    /// then added to the velocity, whatever `dt` is. Last, the position moves
    /// by the velocity, once. Velocity and position stop at the ends of the
    /// machine range.
    ///
    /// `heading` is taken as given: the caller passes the cosine and sine of
    /// `rotation_after(dt)`.
    pub fn update_position(&mut self, dt: i64, heading: Heading)
        ensures
            final(self)@ == old(self)@.advanced(dt as int, heading@),
            final(self)@.wf(),
    {
        proof {
            use_type_invariant(&*self);
        }
        self.rotation = self.rotation_after(dt);
        if self.thrusters_on {
            self.velocity = Vec2d {
                x: clamp_to_i64(self.velocity.x as i128 + scale(heading.cos as i64, self.thrust())),
                y: clamp_to_i64(self.velocity.y as i128 + scale(heading.sin as i64, self.thrust())),
            };
        }
        self.position = self.position.saturating_add(self.velocity);
    }

    /// The angle one rotation control adds over `dt` microseconds, not yet
    /// wrapped.
    fn turn_step(&self, dt: i64) -> (step: i128)
        ensures
            step == ROTATION_SPEED * dt,
    {
        let speed: i64 = self.rotation_speed();
        assert(speed * dt == ROTATION_SPEED * dt) by (nonlinear_arith)
            requires
                speed == ROTATION_SPEED,
        ;
        speed as i128 * dt as i128
    }

    /// The rotation the ship has after a tick of `dt` microseconds: each held
    /// rotation control turns it by `ROTATION_SPEED` times `dt`, the left one
    /// against the right one, and the sum is wrapped into one turn.
    pub fn rotation_after(&self, dt: i64) -> (rotation: i64)
        ensures
            rotation == self@.steered(dt as int).rotation,
            is_canonical(rotation as int),
    {
        let step: i128 = self.turn_step(dt);
        let mut angle: i128 = self.rotation as i128;
        if self.rotating_left {
            angle = angle - step;
        }
        if self.rotating_right {
            angle = angle + step;
        }
        canonical_angle(angle)
    }

    /// Holds or releases `control`, and changes nothing else.
    pub fn set_control(&mut self, control: Control, pressed: bool)
        ensures
            final(self)@ == old(self)@.with_control(control, pressed),
            final(self)@.wf(),
    {
        proof {
            use_type_invariant(&*self);
        }
        match control {
            Control::RotateLeft => {
                self.rotating_left = pressed;
            },
            Control::RotateRight => {
                self.rotating_right = pressed;
            },
            Control::Thrust => {
                self.thrusters_on = pressed;
            },
        }
    }

    /// Whether `control` is held.
    pub fn is_held(&self, control: Control) -> (held: bool)
        ensures
            held == self@.holds(control),
    {
        match control {
            Control::RotateLeft => self.rotating_left,
            Control::RotateRight => self.rotating_right,
            Control::Thrust => self.thrusters_on,
        }
    }

    /// Where the ship is, in nanopixels.
    pub fn position(&self) -> (position: Vec2d)
        ensures
            position@ == self@.position,
    {
        self.position
    }

    /// Which way the ship points, in microdegrees.
    pub fn rotation(&self) -> (rotation: i64)
        ensures
            rotation == self@.rotation,
            is_canonical(rotation as int),
    {
        proof {
            use_type_invariant(self);
        }
        self.rotation
    }

    /// How far the ship moves each tick, in nanopixels.
    pub fn velocity(&self) -> (velocity: Vec2d)
        ensures
            velocity@ == self@.velocity,
    {
        self.velocity
    }

    /// Turns the ship as a rotation control held for `dt` microseconds
    /// would: a positive `dt` rotates right, a negative one rotates left.
    pub fn rotate(&mut self, dt: i64)
        ensures
            final(self)@ == old(self)@.rotated(dt as int),
            final(self)@.wf(),
    {
        proof {
            use_type_invariant(&*self);
        }
        let step: i128 = self.turn_step(dt);
        self.rotation = canonical_angle(self.rotation as i128 + step);
    }

    /// The radius of the ship, in nanopixels.
    pub fn radius(&self) -> (r: i64)
        ensures
            r == RADIUS,
    {
        RADIUS
    }

    /// The speed of rotation, in microdegrees a microsecond.
    pub fn rotation_speed(&self) -> (speed: i64)
        ensures
            speed == ROTATION_SPEED,
    {
        ROTATION_SPEED
    }

    /// The length of one impulse of thrust, in nanopixels.
    pub fn thrust(&self) -> (impulse: i64)
        ensures
            impulse == THRUST,
    {
        THRUST
    }
}

/// A tick with every control released neither turns the body nor changes
/// its velocity: it only moves the body by that velocity, and a body at rest
/// stays exactly as it is.
pub proof fn lemma_idle_tick(body: Body, dt: int, heading: Vector)
    requires
        body.wf(),
        !body.thrusters_on,
        !body.rotating_left,
        !body.rotating_right,
    ensures
        body.advanced(dt, heading).rotation == body.rotation,
        body.advanced(dt, heading).velocity == body.velocity,
        body.advanced(dt, heading).position == body.position.plus(body.velocity).clamped(),
        body.velocity == (Vector { x: 0, y: 0 }) ==> body.advanced(dt, heading) == body,
{
}

/// Whatever the body, the tick and the heading, the rotation that comes
/// out lies in `[0, FULL_TURN)`, and a well-formed body stays well formed.
pub proof fn lemma_rotation_stays_canonical(body: Body, dt: int, heading: Vector)
    ensures
        is_canonical(body.rotated(dt).rotation),
        is_canonical(body.steered(dt).rotation),
        is_canonical(body.advanced(dt, heading).rotation),
        body.wf() ==> body.rotated(dt).wf() && body.advanced(dt, heading).wf(),
{
}

/// A rotation that overshoots the canonical range by less than one turn is
/// brought back by exactly one turn, and one that lands inside is kept.
pub proof fn lemma_wraparound_is_one_turn(angle: int)
    ensures
        is_canonical(angle) ==> canonical(angle) == angle,
        FULL_TURN <= angle < 2 * FULL_TURN ==> canonical(angle) == angle - FULL_TURN,
        -FULL_TURN <= angle < 0 ==> canonical(angle) == angle + FULL_TURN,
{
}

/// Opposing rotation controls cancel exactly: with both held, or neither,
/// a tick of any length leaves the rotation as it was.
pub proof fn lemma_opposing_turns_cancel(body: Body, dt: int, heading: Vector)
    requires
        body.wf(),
        body.rotating_left == body.rotating_right,
    ensures
        body.turn(dt) == 0,
        body.steered(dt).rotation == body.rotation,
        body.advanced(dt, heading).rotation == body.rotation,
{
}

/// Turning left and then right for the same time, each turn wrapped on its
/// own, comes to the same as steering with both controls held.
pub proof fn lemma_left_then_right_is_steering(body: Body, dt: int)
    requires
        body.wf(),
    ensures
        body.rotated(-dt).rotated(dt).rotation == body.rotation,
        body.rotating_left && !body.rotating_right ==> body.steered(dt) == body.rotated(-dt),
        body.rotating_right && !body.rotating_left ==> body.steered(dt) == body.rotated(dt),
{
    assert(ROTATION_SPEED * (-dt) == -(ROTATION_SPEED * dt)) by (nonlinear_arith);
}

/// A tick moves the position by the velocity the tick ends with, exactly
/// once; where the sum fits the machine, nothing is lost.
pub proof fn lemma_position_integrates_velocity(body: Body, dt: int, heading: Vector)
    ensures
        body.advanced(dt, heading).position == body.position.plus(
            body.advanced(dt, heading).velocity,
        ).clamped(),
        body.position.plus(body.advanced(dt, heading).velocity).fits() ==> body.advanced(
            dt,
            heading,
        ).position == body.position.plus(body.advanced(dt, heading).velocity),
{
}

/// Releasing a control that is not held changes nothing.
pub proof fn lemma_release_of_released(body: Body, control: Control)
    requires
        !body.holds(control),
    ensures
        body.with_control(control, false) == body,
{
}

/// Setting a control twice to the same state is the same as setting it
/// once, and what was set is what is held.
pub proof fn lemma_set_control_is_idempotent(body: Body, control: Control, pressed: bool)
    ensures
        body.with_control(control, pressed).with_control(control, pressed) == body.with_control(
            control,
            pressed,
        ),
        body.with_control(control, pressed).holds(control) == pressed,
{
}

} // verus!
