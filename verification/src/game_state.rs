//! The state of a match, and the tick that advances it.

use vstd::prelude::*;
use crate::entity::{Entity, Visual};
use crate::math::Vec2;
use crate::scene::{
    drop_below, length, rebound_of, refinement, sign, spin_of, Input, Player, Scene, Verdict,
    BALL_ACCEL, BALL_SPEED, PADDLE_MARGIN, PADDLE_SPEED, SPIN_PIXELS,
};
use crate::units::{
    exact_quotient, lemma_product_within, FIELD_LIMIT, GRAIN_LIMIT, HALF_PIXEL, LIMIT,
    UNITS_PER_PIXEL,
};

verus! {

/// The horizontal speed, at the given grain, of a ball that a paddle has
/// returned.
pub fn rebound(vx: i128, grain: i128) -> (returned: i128)
    requires
        i128::MIN <= BALL_ACCEL * grain <= i128::MAX,
        -i128::MAX <= vx + BALL_ACCEL * grain * sign(vx as int) <= i128::MAX,
    ensures
        returned == rebound_of(vx as int, grain as int),
{
    let gain: i128 = BALL_ACCEL * grain;
    if vx > 0 {
        -(vx + gain)
    } else if vx < 0 {
        -(vx - gain)
    } else {
        0
    }
}

/// Two paddles, a ball and the playfield that they move on.
#[derive(Clone, Copy, Debug, PartialEq, Eq, Structural)]
pub struct GameState {
    pub player1: Entity,
    pub player2: Entity,
    pub ball: Entity,
    /// The width of the playfield in base units. It is fixed when the state
    /// is made.
    pub width: i128,
    /// The height of the playfield in base units. It is fixed when the state
    /// is made.
    pub height: i128,
}

impl View for GameState {
    type V = Scene;

    open spec fn view(&self) -> Scene {
        Scene {
            player1: self.player1@,
            player2: self.player2@,
            ball: self.ball@,
            width: self.width as int,
            height: self.height as int,
        }
    }
}

/// The largest factor by which a paddle refines the grain: the largest
/// height of an image in pixels.
pub open spec fn factor_limit() -> int {
    i32::MAX as int
}

impl GameState {
    /// Every image has a size, the paddles are at rest, as they move by the
    /// keys alone, and the three entities have one grain.
    pub open spec fn wf(&self) -> bool {
        &&& self.player1.visual.wf()
        &&& self.player2.visual.wf()
        &&& self.ball.visual.wf()
        &&& self.player1.velocity == (Vec2 { x: 0, y: 0 })
        &&& self.player2.velocity == (Vec2 { x: 0, y: 0 })
        &&& self.ball.grain >= 1
        &&& self.player1.grain == self.ball.grain
        &&& self.player2.grain == self.ball.grain
    }

    /// Every position is within `reach`, the ball's velocity within `speed`,
    /// the grain at most `grain` and the playfield within `FIELD_LIMIT`.
    pub open spec fn bounded_by(&self, reach: int, speed: int, grain: int) -> bool {
        &&& self.player1.position@.within(reach)
        &&& self.player2.position@.within(reach)
        &&& self.ball.position@.within(reach)
        &&& self.ball.velocity@.within(speed)
        &&& self.ball.grain <= grain
        &&& -FIELD_LIMIT <= self.width <= FIELD_LIMIT
        &&& -FIELD_LIMIT <= self.height <= FIELD_LIMIT
    }

    /// Every position and the ball's velocity are within `LIMIT`, the grain
    /// is at most `GRAIN_LIMIT` and the playfield within `FIELD_LIMIT`, so
    /// that a tick stays within machine integers.
    pub open spec fn in_range(&self) -> bool {
        self.bounded_by(LIMIT as int, LIMIT as int, GRAIN_LIMIT as int)
    }

    /// The state in which a match begins, on a playfield of `width` by
    /// `height` pixels and with the given images for the paddles and the
    /// ball.
    pub fn new(width: i32, height: i32, player1: Visual, player2: Visual, ball: Visual) -> (state:
        GameState)
        ensures
            state@ == Scene::opening(length(width), length(height), player1, player2, ball),
            state.player1.visual == player1,
            state.player2.visual == player2,
            state.ball.visual == ball,
            state.wf() == (player1.wf() && player2.wf() && ball.wf()),
            state.in_range(),
    {
        let player1_position = Vec2::new(
            PADDLE_MARGIN,
            (height as i128 - player1.height as i128) * HALF_PIXEL,
        );
        let player2_position = Vec2::new(
            (width as i128 - player2.width as i128) * UNITS_PER_PIXEL - PADDLE_MARGIN,
            (height as i128 - player2.height as i128) * HALF_PIXEL,
        );
        let ball_position = Vec2::new(
            (width as i128 - ball.width as i128) * HALF_PIXEL,
            (height as i128 - ball.height as i128) * HALF_PIXEL,
        );
        let ball_velocity = Vec2::new(-BALL_SPEED, 0);
        GameState {
            player1: Entity::new(player1, player1_position),
            player2: Entity::new(player2, player2_position),
            ball: Entity::with_velocity(ball, ball_position, ball_velocity),
            width: width as i128 * UNITS_PER_PIXEL,
            height: height as i128 * UNITS_PER_PIXEL,
        }
    }

    /// Whether every image has a size, the paddles are at rest and the three
    /// entities have one grain.
    pub fn well_formed(&self) -> (well: bool)
        ensures
            well == self.wf(),
    {
        self.player1.visual.width > 0 && self.player1.visual.height > 0
            && self.player2.visual.width > 0 && self.player2.visual.height > 0
            && self.ball.visual.width > 0 && self.ball.visual.height > 0
            && self.player1.velocity.x == 0 && self.player1.velocity.y == 0
            && self.player2.velocity.x == 0 && self.player2.velocity.y == 0 && self.ball.grain >= 1
            && self.player1.grain == self.ball.grain && self.player2.grain == self.ball.grain
    }

    /// Whether a tick can be played from this state within machine integers.
    pub fn within_limits(&self) -> (within: bool)
        ensures
            within == self.in_range(),
    {
        magnitude_within(self.player1.position.x, LIMIT) && magnitude_within(
            self.player1.position.y,
            LIMIT,
        ) && magnitude_within(self.player2.position.x, LIMIT) && magnitude_within(
            self.player2.position.y,
            LIMIT,
        ) && magnitude_within(self.ball.position.x, LIMIT) && magnitude_within(
            self.ball.position.y,
            LIMIT,
        ) && magnitude_within(self.ball.velocity.x, LIMIT) && magnitude_within(
            self.ball.velocity.y,
            LIMIT,
        ) && self.ball.grain <= GRAIN_LIMIT && magnitude_within(self.width, FIELD_LIMIT)
            && magnitude_within(self.height, FIELD_LIMIT)
    }

    /// The state at grain 1 that is nearest to this one: every length of
    /// the three entities is divided by the grain and rounded toward zero.
    /// A driver calls this where the grain has grown beyond `GRAIN_LIMIT`,
    /// to play on; no tick does.
    pub fn coarsened(&self) -> (coarser: GameState)
        requires
            self.wf(),
            self.player1.has_magnitudes(),
            self.player2.has_magnitudes(),
            self.ball.has_magnitudes(),
        ensures
            coarser.player1@ == self.player1@.coarsened(),
            coarser.player2@ == self.player2@.coarsened(),
            coarser.ball@ == self.ball@.coarsened(),
            coarser.player1.visual == self.player1.visual,
            coarser.player2.visual == self.player2.visual,
            coarser.ball.visual == self.ball.visual,
            coarser.width == self.width,
            coarser.height == self.height,
            coarser.wf(),
            self.ball.grain == 1 ==> coarser == *self,
    {
        GameState {
            player1: self.player1.coarsened(),
            player2: self.player2.coarsened(),
            ball: self.ball.coarsened(),
            width: self.width,
            height: self.height,
        }
    }

    /// Plays one tick with the keys of `input` held: the paddles follow the
    /// keys, the ball moves, a paddle that the ball then overlaps returns it,
    /// a wall that it has reached turns it back, and the verdict is read off
    /// where the ball has come to.
    pub fn update(&mut self, input: Input) -> (verdict: Verdict)
        requires
            old(self).wf(),
            old(self).in_range(),
        ensures
            final(self)@ == old(self)@.step(input),
            verdict == old(self)@.step(input).verdict(),
            final(self).wf(),
            final(self).player1.visual == old(self).player1.visual,
            final(self).player2.visual == old(self).player2.visual,
            final(self).ball.visual == old(self).ball.visual,
    {
        self.move_paddles(input);
        self.move_ball();
        self.return_ball();
        self.turn_at_walls();
        proof {
            lemma_sizes_within(self.ball, GRAIN_LIMIT * factor_limit());
            lemma_product_within(
                self.width as int,
                self.ball.grain as int,
                FIELD_LIMIT as int,
                GRAIN_LIMIT * factor_limit(),
            );
        }
        Verdict {
            player2_wins: self.ball.position.x < 0,
            player1_wins: self.ball.position.x + self.ball.width() > self.width * self.ball.grain,
        }
    }

    /// The first phase of a tick: each paddle moves up while its up key is
    /// held and down while its down key is held.
    fn move_paddles(&mut self, input: Input)
        requires
            old(self).wf(),
            old(self).in_range(),
        ensures
            final(self)@ == old(self)@.after_input(input),
            final(self).bounded_by(
                LIMIT + PADDLE_SPEED * GRAIN_LIMIT,
                LIMIT as int,
                GRAIN_LIMIT as int,
            ),
            final(self).wf(),
            final(self).player1.visual == old(self).player1.visual,
            final(self).player2.visual == old(self).player2.visual,
            final(self).ball.visual == old(self).ball.visual,
    {
        let shift: i128 = PADDLE_SPEED * self.ball.grain;
        proof {
            let g = self.ball.grain as int;
            assert((-PADDLE_SPEED) * g == -(PADDLE_SPEED * g)) by (nonlinear_arith);
            assert((-PADDLE_SPEED + PADDLE_SPEED) * g == 0) by (nonlinear_arith);
            assert((0int + 0int) * g == 0) by (nonlinear_arith);
            assert((-PADDLE_SPEED + 0int) * g == -(PADDLE_SPEED * g)) by (nonlinear_arith);
            assert((0int + PADDLE_SPEED) * g == PADDLE_SPEED * g) by (nonlinear_arith);
        }
        if input.player1_up {
            self.player1.position.y = self.player1.position.y - shift;
        }
        if input.player1_down {
            self.player1.position.y = self.player1.position.y + shift;
        }
        if input.player2_up {
            self.player2.position.y = self.player2.position.y - shift;
        }
        if input.player2_down {
            self.player2.position.y = self.player2.position.y + shift;
        }
    }

    /// The second phase: the ball moves by its velocity.
    fn move_ball(&mut self)
        requires
            old(self).wf(),
            old(self).bounded_by(
                LIMIT + PADDLE_SPEED * GRAIN_LIMIT,
                LIMIT as int,
                GRAIN_LIMIT as int,
            ),
        ensures
            final(self)@ == old(self)@.after_motion(),
            final(self).bounded_by(
                2 * LIMIT + PADDLE_SPEED * GRAIN_LIMIT,
                LIMIT as int,
                GRAIN_LIMIT as int,
            ),
            final(self).wf(),
            final(self).player1.visual == old(self).player1.visual,
            final(self).player2.visual == old(self).player2.visual,
            final(self).ball.visual == old(self).ball.visual,
    {
        self.ball.position.x = self.ball.position.x + self.ball.velocity.x;
        self.ball.position.y = self.ball.position.y + self.ball.velocity.y;
    }

    /// The paddle that the ball overlaps, player one's first.
    fn struck_paddle(&self) -> (struck: Option<Player>)
        requires
            self.wf(),
            self.bounded_by(
                2 * LIMIT + PADDLE_SPEED * GRAIN_LIMIT,
                LIMIT as int,
                GRAIN_LIMIT as int,
            ),
        ensures
            struck == self@.struck(),
    {
        proof {
            lemma_sizes_within(self.ball, GRAIN_LIMIT as int);
            lemma_sizes_within(self.player1, GRAIN_LIMIT as int);
            lemma_sizes_within(self.player2, GRAIN_LIMIT as int);
        }
        let ball_bounds = self.ball.bounds();
        if ball_bounds.intersects(&self.player1.bounds()) {
            Some(Player::One)
        } else if ball_bounds.intersects(&self.player2.bounds()) {
            Some(Player::Two)
        } else {
            None
        }
    }

    /// Counts every length of the three entities in parts `factor` times as
    /// fine.
    fn refine(&mut self, factor: i128)
        requires
            old(self).wf(),
            old(self).bounded_by(
                2 * LIMIT + PADDLE_SPEED * GRAIN_LIMIT,
                LIMIT as int,
                GRAIN_LIMIT as int,
            ),
            1 <= factor <= factor_limit(),
        ensures
            final(self)@ == old(self)@.refined(factor as int),
            final(self).bounded_by(
                (2 * LIMIT + PADDLE_SPEED * GRAIN_LIMIT) * factor_limit(),
                LIMIT * factor_limit(),
                GRAIN_LIMIT * factor_limit(),
            ),
            final(self).wf(),
            final(self).player1.visual == old(self).player1.visual,
            final(self).player2.visual == old(self).player2.visual,
            final(self).ball.visual == old(self).ball.visual,
    {
        proof {
            let reach = 2 * LIMIT + PADDLE_SPEED * GRAIN_LIMIT;
            let f = factor as int;
            let most = factor_limit();
            lemma_product_within(self.ball.grain as int, f, GRAIN_LIMIT as int, most);
            lemma_product_within(self.player1.position.x as int, f, reach, most);
            lemma_product_within(self.player1.position.y as int, f, reach, most);
            lemma_product_within(self.player2.position.x as int, f, reach, most);
            lemma_product_within(self.player2.position.y as int, f, reach, most);
            lemma_product_within(self.ball.position.x as int, f, reach, most);
            lemma_product_within(self.ball.position.y as int, f, reach, most);
            lemma_product_within(self.ball.velocity.x as int, f, LIMIT as int, most);
            lemma_product_within(self.ball.velocity.y as int, f, LIMIT as int, most);
            assert(self.ball.grain * f >= 1) by (nonlinear_arith)
                requires
                    self.ball.grain >= 1,
                    f >= 1,
            ;
        }
        self.player1 = self.player1.refined(factor);
        self.player2 = self.player2.refined(factor);
        self.ball = self.ball.refined(factor);
    }

    /// The third phase: a paddle that the ball overlaps reverses and
    /// quickens its horizontal motion and adds spin to its vertical motion.
    fn return_ball(&mut self)
        requires
            old(self).wf(),
            old(self).bounded_by(
                2 * LIMIT + PADDLE_SPEED * GRAIN_LIMIT,
                LIMIT as int,
                GRAIN_LIMIT as int,
            ),
        ensures
            final(self)@ == old(self)@.after_paddles(),
            final(self).bounded_by(
                (2 * LIMIT + PADDLE_SPEED * GRAIN_LIMIT) * factor_limit(),
                2 * LIMIT * factor_limit(),
                GRAIN_LIMIT * factor_limit(),
            ),
            final(self).wf(),
            final(self).player1.visual == old(self).player1.visual,
            final(self).player2.visual == old(self).player2.visual,
            final(self).ball.visual == old(self).ball.visual,
    {
        if let Some(player) = self.struck_paddle() {
            let paddle: Entity = match player {
                Player::One => self.player1,
                Player::Two => self.player2,
            };
            assert(paddle@ == old(self)@.paddle(player));
            proof {
                lemma_sizes_within(self.ball, GRAIN_LIMIT as int);
                lemma_sizes_within(paddle, GRAIN_LIMIT as int);
            }
            let ball_centre = self.ball.centre();
            let paddle_centre = paddle.centre();
            let turned: i128 = SPIN_PIXELS * (ball_centre.y - paddle_centre.y);
            assert(turned == SPIN_PIXELS * drop_below(old(self).ball@, paddle@));
            let pixel_height: i128 = paddle.visual.height as i128;
            let whole: Option<i128> = exact_quotient(turned, pixel_height);
            let factor: i128 = if whole.is_some() {
                1
            } else {
                pixel_height
            };
            let added: i128 = match whole {
                Some(quotient) => quotient,
                None => turned,
            };
            proof {
                assert(factor == refinement(old(self).ball@, paddle@));
                if whole.is_some() {
                    let q = whole.unwrap() as int;
                    vstd::arithmetic::div_mod::lemma_fundamental_div_mod_converse(
                        turned as int,
                        pixel_height as int,
                        q,
                        0,
                    );
                    assert(-(turned as int) <= q <= turned || turned <= q <= -(turned as int))
                        by (nonlinear_arith)
                        requires
                            q * pixel_height == turned,
                            pixel_height >= 1,
                    ;
                }
                assert(added == spin_of(old(self).ball@, paddle@));
            }
            self.refine(factor);
            proof {
                lemma_product_within(
                    BALL_ACCEL as int,
                    self.ball.grain as int,
                    BALL_ACCEL as int,
                    GRAIN_LIMIT * factor_limit(),
                );
            }
            self.ball.velocity.x = rebound(self.ball.velocity.x, self.ball.grain);
            self.ball.velocity.y = self.ball.velocity.y + added;
            assert(self.ball.velocity@.within(2 * LIMIT * factor_limit()));
        } else {
            assert(self.ball.position@.within(
                (2 * LIMIT + PADDLE_SPEED * GRAIN_LIMIT) * factor_limit(),
            ));
            assert(self.player1.position@.within(
                (2 * LIMIT + PADDLE_SPEED * GRAIN_LIMIT) * factor_limit(),
            ));
            assert(self.player2.position@.within(
                (2 * LIMIT + PADDLE_SPEED * GRAIN_LIMIT) * factor_limit(),
            ));
            assert(self.ball.velocity@.within(2 * LIMIT * factor_limit()));
        }
    }

    /// The fourth phase: a ball that has reached the top or the bottom of the
    /// playfield turns back.
    fn turn_at_walls(&mut self)
        requires
            old(self).wf(),
            old(self).bounded_by(
                (2 * LIMIT + PADDLE_SPEED * GRAIN_LIMIT) * factor_limit(),
                2 * LIMIT * factor_limit(),
                GRAIN_LIMIT * factor_limit(),
            ),
        ensures
            final(self)@ == old(self)@.after_walls(),
            final(self).bounded_by(
                (2 * LIMIT + PADDLE_SPEED * GRAIN_LIMIT) * factor_limit(),
                2 * LIMIT * factor_limit(),
                GRAIN_LIMIT * factor_limit(),
            ),
            final(self).wf(),
            final(self).player1.visual == old(self).player1.visual,
            final(self).player2.visual == old(self).player2.visual,
            final(self).ball.visual == old(self).ball.visual,
    {
        proof {
            lemma_sizes_within(self.ball, GRAIN_LIMIT * factor_limit());
            lemma_product_within(
                self.height as int,
                self.ball.grain as int,
                FIELD_LIMIT as int,
                GRAIN_LIMIT * factor_limit(),
            );
        }
        if self.ball.position.y <= 0 || self.ball.position.y + self.ball.height() >= self.height
            * self.ball.grain {
            self.ball.velocity.y = -self.ball.velocity.y;
        }
    }
}

/// Whether `v` lies between `-bound` and `bound`.
fn magnitude_within(v: i128, bound: i128) -> (within: bool)
    requires
        bound >= 0,
    ensures
        within == (-bound <= v <= bound),
{
    -bound <= v && v <= bound
}

/// The sizes of an entity whose grain is at most `grain`, and the halves of
/// them, are at most that many times the largest image.
pub proof fn lemma_sizes_within(entity: Entity, grain: int)
    requires
        1 <= entity.grain <= grain,
    ensures
        -(2_147_483_648_000 * grain) <= entity@.width() <= 2_147_483_648_000 * grain,
        -(2_147_483_648_000 * grain) <= entity@.height() <= 2_147_483_648_000 * grain,
        -(2_147_483_648_000 * grain) <= entity.visual.width * HALF_PIXEL * entity.grain
            <= 2_147_483_648_000 * grain,
        -(2_147_483_648_000 * grain) <= entity.visual.height * HALF_PIXEL * entity.grain
            <= 2_147_483_648_000 * grain,
{
    let g = entity.grain as int;
    lemma_product_within(entity.visual.width * UNITS_PER_PIXEL, g, 2_147_483_648_000, grain);
    lemma_product_within(entity.visual.height * UNITS_PER_PIXEL, g, 2_147_483_648_000, grain);
    lemma_product_within(entity.visual.width * HALF_PIXEL, g, 2_147_483_648_000, grain);
    lemma_product_within(entity.visual.height * HALF_PIXEL, g, 2_147_483_648_000, grain);
}

} // verus!
