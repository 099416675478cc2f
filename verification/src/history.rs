//! What holds of a ship over many events: ticks and key transitions, one
//! after another.

use vstd::prelude::*;
use crate::controls::{ButtonState, Key};
use crate::ship::{impulse_along, lemma_impulse_is_exact, Body, THRUST};
use crate::units::{is_canonical, HEADING_UNIT};
use crate::vector::Vector;

verus! {

/// Something that happens to a body.
pub enum Event {
    /// Time moves on by `dt`, and thrust acts along `heading`.
    Tick { dt: int, heading: Vector },
    /// A key goes down or comes up.
    KeyChange { state: ButtonState, key: Key },
}

/// The same tick, `n` times over.
pub open spec fn ticks(n: nat, dt: int, heading: Vector) -> Seq<Event> {
    Seq::new(n, |i: int| Event::Tick { dt, heading })
}

impl Body {
    /// The body after one event.
    pub open spec fn on(self, event: Event) -> Body {
        match event {
            Event::Tick { dt, heading } => self.advanced(dt, heading),
            Event::KeyChange { state, key } => self.on_key(state, key),
        }
    }

    /// The body after every event of `events`, first to last.
    pub open spec fn after(self, events: Seq<Event>) -> Body
        decreases events.len(),
    {
        if events.len() == 0 {
            self
        } else {
            self.after(events.drop_last()).on(events.last())
        }
    }
}

/// Through any sequence of ticks and key transitions a well-formed body
/// stays well formed: its rotation never leaves `[0, FULL_TURN)`.
pub proof fn lemma_history_keeps_rotation_canonical(body: Body, events: Seq<Event>)
    requires
        body.wf(),
    ensures
        body.after(events).wf(),
        is_canonical(body.after(events).rotation),
    decreases events.len(),
{
    if events.len() > 0 {
        lemma_history_keeps_rotation_canonical(body, events.drop_last());
    }
}

/// With the thrusters on, no rotation control held and the heading the
/// same tick after tick, `n` ticks add `n` impulses to the velocity and
/// leave the rotation alone, as long as the velocity they add up to fits
/// the machine.
pub proof fn lemma_thrust_accumulates(body: Body, n: nat, dt: int, heading: Vector)
    requires
        body.wf(),
        body.thrusters_on,
        !body.rotating_left,
        !body.rotating_right,
        body.velocity.plus(impulse_along(heading).times(n as int)).fits(),
    ensures
        body.after(ticks(n, dt, heading)).velocity == body.velocity.plus(
            impulse_along(heading).times(n as int),
        ),
        body.after(ticks(n, dt, heading)).rotation == body.rotation,
        body.after(ticks(n, dt, heading)).thrusters_on,
        !body.after(ticks(n, dt, heading)).rotating_left,
        !body.after(ticks(n, dt, heading)).rotating_right,
        body.after(ticks(n, dt, heading)).wf(),
    decreases n,
{
    let step = impulse_along(heading);
    if n > 0 {
        let m = (n - 1) as nat;
        assert(ticks(n, dt, heading).drop_last() =~= ticks(m, dt, heading));
        assert(step.times(m as int).x == step.times(n as int).x - step.x && step.times(
            m as int,
        ).y == step.times(n as int).y - step.y) by (nonlinear_arith)
            requires
                m == n - 1,
        ;
        assert((0 <= m * step.x <= n * step.x || n * step.x <= m * step.x <= 0) && (0 <= m
            * step.y <= n * step.y || n * step.y <= m * step.y <= 0)) by (nonlinear_arith)
            requires
                m == n - 1,
                n > 0,
        ;
        lemma_thrust_accumulates(body, m, dt, heading);
    } else {
        assert(step.times(0).x == 0 && step.times(0).y == 0) by (nonlinear_arith);
    }
}

/// From rest, under a heading of exactly unit length, the speed after `n`
/// ticks of thrust is `n` times `THRUST`.
pub proof fn lemma_speed_from_rest(n: nat, heading: Vector)
    requires
        heading.norm_squared() == HEADING_UNIT * HEADING_UNIT,
    ensures
        impulse_along(heading).times(n as int).norm_squared() == (n * THRUST) * (n * THRUST),
{
    lemma_impulse_is_exact(heading.x);
    lemma_impulse_is_exact(heading.y);
    let c = heading.x;
    let s = heading.y;
    assert((n * (20 * c)) * (n * (20 * c)) + (n * (20 * s)) * (n * (20 * s)) == (n * 20_000_000)
        * (n * 20_000_000)) by (nonlinear_arith)
        requires
            c * c + s * s == 1_000_000 * 1_000_000,
    ;
}

/// Under a fixed heading the speed that thrust has built up from rest
/// never drops as the ticks go on.
pub proof fn lemma_speed_is_monotonic(m: nat, n: nat, heading: Vector)
    requires
        m <= n,
    ensures
        impulse_along(heading).times(m as int).norm_squared() <= impulse_along(heading).times(
            n as int,
        ).norm_squared(),
{
    let x = impulse_along(heading).x;
    let y = impulse_along(heading).y;
    assert((m * x) * (m * x) <= (n * x) * (n * x) && (m * y) * (m * y) <= (n * y) * (n * y))
        by (nonlinear_arith)
        requires
            0 <= m <= n,
    ;
}

} // verus!
