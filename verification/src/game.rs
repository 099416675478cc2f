//! The game around the ship: the player who owns it and the application
//! that hands it ticks and key transitions.

use vstd::prelude::*;
use crate::controls::{ButtonState, Key};
use crate::ship::{Body, Ship};
use crate::units::PIXEL;
use crate::vector::{Heading, Vec2d, Vector};

verus! {

/// The centre of a drawing surface `width` by `height` pixels, in
/// nanopixels.
pub open spec fn centre(width: int, height: int) -> Vector {
    Vector { x: width * PIXEL / 2, y: height * PIXEL / 2 }
}

impl Body {
    /// The body after `key` went down or came up: a bound key holds or
    /// releases its control, any other key changes nothing.
    pub open spec fn on_key(self, state: ButtonState, key: Key) -> Body {
        match key.binding() {
            Some(control) => self.with_control(control, state.held()),
            None => self,
        }
    }
}

/// The player: the owner of one ship.
pub struct Player {
    pub ship: Ship,
}

impl View for Player {
    type V = Body;

    open spec fn view(&self) -> Body {
        self.ship@
    }
}

/// The application: one player, driven by ticks and key transitions.
pub struct App {
    pub player: Player,
}

impl View for App {
    type V = Body;

    open spec fn view(&self) -> Body {
        self.player@
    }
}

impl App {
    /// The application as it starts on a drawing surface `width` by
    /// `height` pixels: the ship rests at the centre.
    pub fn new(width: u32, height: u32) -> (app: App)
        ensures
            app@ == Body::at_rest(centre(width as int, height as int)),
            app@.wf(),
    {
        let half_pixel: i64 = PIXEL / 2;
        assert(width * PIXEL / 2 == width * half_pixel && height * PIXEL / 2 == height
            * half_pixel) by (nonlinear_arith)
            requires
                PIXEL == 1_000_000_000,
                half_pixel == 500_000_000,
        ;
        assert(width * half_pixel <= i64::MAX && height * half_pixel <= i64::MAX)
            by (nonlinear_arith)
            requires
                0 <= width <= u32::MAX,
                0 <= height <= u32::MAX,
                half_pixel == 500_000_000,
        ;
        let position = Vec2d { x: width as i64 * half_pixel, y: height as i64 * half_pixel };
        App { player: Player { ship: Ship::new(position) } }
    }

    /// Advances the ship by one tick of `dt` microseconds, thrusting along
    /// `heading`.
    pub fn update(&mut self, dt: i64, heading: Heading)
        ensures
            final(self)@ == old(self)@.advanced(dt as int, heading@),
            final(self)@.wf(),
    {
        self.player.ship.update_position(dt, heading);
    }

    /// Takes a key transition: an arrow key holds or releases its control,
    /// any other key is left to the caller. Returns whether the key was
    /// bound.
    pub fn key_down(&mut self, state: ButtonState, key: Key) -> (bound: bool)
        ensures
            final(self)@ == old(self)@.on_key(state, key),
            bound == key.binding().is_some(),
    {
        match key.control() {
            Some(control) => {
                self.player.ship.set_control(control, state.is_pressed());
                true
            },
            None => false,
        }
    }
}

/// A key transition delivered twice is the same as delivered once; the
/// release of a key whose control is not held changes nothing; and a key
/// that is bound to no control changes nothing either way.
pub proof fn lemma_key_transition_is_idempotent(body: Body, state: ButtonState, key: Key)
    ensures
        body.on_key(state, key).on_key(state, key) == body.on_key(state, key),
        key.binding() matches Some(control) && !body.holds(control) ==> body.on_key(
            ButtonState::Release,
            key,
        ) == body,
        key.binding() is None ==> body.on_key(state, key) == body,
{
}

} // verus!
