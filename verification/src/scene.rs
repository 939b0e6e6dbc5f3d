//! The mathematical model of a match: the scene and its step from one tick
//! to the next.

use vstd::prelude::*;
use crate::entity::{lemma_refined_body_is_the_same, Body, Visual};
use crate::math::Point;
use crate::units::UNITS_PER_PIXEL;

verus! {

/// The distance that a paddle moves in a tick while one of its keys is held:
/// 8 pixels, in base units.
pub const PADDLE_SPEED: i128 = 8000;

/// The speed at which the ball is served: 5 pixels per tick, in base units.
pub const BALL_SPEED: i128 = 5000;

/// The vertical speed that a paddle gives to a ball which strikes it a whole
/// paddle height off its centre: 4 pixels per tick, in base units.
pub const PADDLE_SPIN: i128 = 4000;

/// `PADDLE_SPIN` in pixels.
pub const SPIN_PIXELS: i128 = 4;

/// The horizontal speed that the ball gains at each paddle: a twentieth of a
/// pixel per tick, in base units.
pub const BALL_ACCEL: i128 = 50;

/// The gap between a paddle and its edge of the playfield: 16 pixels, in
/// base units.
pub const PADDLE_MARGIN: i128 = 16000;

/// The two players. Player one defends the left edge, player two the right.
#[derive(Clone, Copy, Debug, PartialEq, Eq, Structural)]
pub enum Player {
    One,
    Two,
}

/// The keys that are held during a tick.
#[derive(Clone, Copy, Debug, PartialEq, Eq, Structural)]
pub struct Input {
    pub player1_up: bool,
    pub player1_down: bool,
    pub player2_up: bool,
    pub player2_down: bool,
}

impl Input {
    /// No key is held.
    pub fn none() -> (input: Input)
        ensures
            input == (Input {
                player1_up: false,
                player1_down: false,
                player2_up: false,
                player2_down: false,
            }),
    {
        Input { player1_up: false, player1_down: false, player2_up: false, player2_down: false }
    }
}

/// What a tick decided about the match. Each flag is raised on its own, so
/// on a playfield narrower than the ball both can be.
#[derive(Clone, Copy, Debug, PartialEq, Eq, Structural)]
pub struct Verdict {
    pub player2_wins: bool,
    pub player1_wins: bool,
}

impl Verdict {
    /// A player has won.
    pub open spec fn is_final(&self) -> bool {
        self.player2_wins || self.player1_wins
    }

    /// Whether a player has won, so that no further tick is to be played.
    pub fn ends_match(&self) -> (ends: bool)
        ensures
            ends == self.is_final(),
    {
        self.player2_wins || self.player1_wins
    }
}

/// The length of `pixels` whole pixels in base units.
pub open spec fn length(pixels: i32) -> int {
    pixels * UNITS_PER_PIXEL
}

/// -1, 0 or 1, as `v` is negative, zero or positive.
pub open spec fn sign(v: int) -> int {
    if v < 0 {
        -1
    } else if v == 0 {
        0
    } else {
        1
    }
}

/// The magnitude of `v`.
pub open spec fn magnitude(v: int) -> int {
    if v < 0 {
        -v
    } else {
        v
    }
}

/// The vertical displacement of a paddle in one tick, in base units. The two
/// keys act independently: held together they cancel.
pub open spec fn paddle_shift(up: bool, down: bool) -> int {
    (if up { -PADDLE_SPEED } else { 0int }) + (if down { PADDLE_SPEED as int } else { 0int })
}

/// The horizontal speed, at the given grain, of a ball that a paddle has
/// returned: reversed, and greater in magnitude by `BALL_ACCEL`. A ball
/// without horizontal speed keeps none.
pub open spec fn rebound_of(vx: int, grain: int) -> int {
    -(vx + BALL_ACCEL * grain * sign(vx))
}

/// How far the centre of `ball` lies below the centre of `paddle`; negative
/// where it lies above.
pub open spec fn drop_below(ball: Body, paddle: Body) -> int {
    ball.centre().y - paddle.centre().y
}

/// The spin that `paddle` gives to `ball` is a whole number of parts at
/// their present grain.
pub open spec fn spin_is_whole(ball: Body, paddle: Body) -> bool {
    (SPIN_PIXELS * drop_below(ball, paddle)) % paddle.pixel_height == 0
}

/// The factor by which the grain is refined when `paddle` returns `ball`: 1
/// where the spin is whole as it is, and else the paddle's height in pixels,
/// which makes it whole.
pub open spec fn refinement(ball: Body, paddle: Body) -> int {
    if spin_is_whole(ball, paddle) {
        1
    } else {
        paddle.pixel_height
    }
}

/// The vertical speed that `paddle` adds to `ball`, at the refined grain:
/// `PADDLE_SPIN` times the height of the ball's centre below the paddle's,
/// divided by the paddle's height. Nothing is rounded: see
/// [`lemma_spin_is_exact`].
pub open spec fn spin_of(ball: Body, paddle: Body) -> int {
    if spin_is_whole(ball, paddle) {
        SPIN_PIXELS * drop_below(ball, paddle) / paddle.pixel_height
    } else {
        SPIN_PIXELS * drop_below(ball, paddle)
    }
}

/// The mathematical value of a [`GameState`]. The width and the height of
/// the playfield are in base units.
pub ghost struct Scene {
    pub player1: Body,
    pub player2: Body,
    pub ball: Body,
    pub width: int,
    pub height: int,
}

impl Scene {
    /// The three bodies have one grain, which is positive, and the paddles
    /// have a height.
    pub open spec fn wf(self) -> bool {
        &&& self.ball.grain >= 1
        &&& self.player1.grain == self.ball.grain
        &&& self.player2.grain == self.ball.grain
        &&& self.player1.pixel_height > 0
        &&& self.player2.pixel_height > 0
    }

    /// The scene in which a match on a playfield of the given size begins:
    /// each paddle `PADDLE_MARGIN` from its edge and centred vertically, the
    /// ball in the middle and on its way to player one; every length in base
    /// units.
    pub open spec fn opening(
        width: int,
        height: int,
        player1: Visual,
        player2: Visual,
        ball: Visual,
    ) -> Scene {
        Scene {
            player1: Body {
                pixel_width: player1.width as int,
                pixel_height: player1.height as int,
                grain: 1,
                position: Point {
                    x: PADDLE_MARGIN as int,
                    y: (height - length(player1.height)) / 2,
                },
                velocity: Point { x: 0, y: 0 },
            },
            player2: Body {
                pixel_width: player2.width as int,
                pixel_height: player2.height as int,
                grain: 1,
                position: Point {
                    x: width - length(player2.width) - PADDLE_MARGIN,
                    y: (height - length(player2.height)) / 2,
                },
                velocity: Point { x: 0, y: 0 },
            },
            ball: Body {
                pixel_width: ball.width as int,
                pixel_height: ball.height as int,
                grain: 1,
                position: Point {
                    x: width / 2 - length(ball.width) / 2,
                    y: height / 2 - length(ball.height) / 2,
                },
                velocity: Point { x: -BALL_SPEED, y: 0 },
            },
            width,
            height,
        }
    }

    /// The paddle of `player`.
    pub open spec fn paddle(self, player: Player) -> Body {
        match player {
            Player::One => self.player1,
            Player::Two => self.player2,
        }
    }

    /// The same scene with every length of its bodies counted in parts
    /// `factor` times as fine.
    pub open spec fn refined(self, factor: int) -> Scene {
        Scene {
            player1: self.player1.refined(factor),
            player2: self.player2.refined(factor),
            ball: self.ball.refined(factor),
            ..self
        }
    }

    /// First the paddles follow the keys. Nothing keeps them on the
    /// playfield.
    pub open spec fn after_input(self, input: Input) -> Scene {
        Scene {
            player1: self.player1.moved(
                Point {
                    x: 0,
                    y: paddle_shift(input.player1_up, input.player1_down) * self.player1.grain,
                },
            ),
            player2: self.player2.moved(
                Point {
                    x: 0,
                    y: paddle_shift(input.player2_up, input.player2_down) * self.player2.grain,
                },
            ),
            ..self
        }
    }

    /// Then the ball moves by its velocity.
    pub open spec fn after_motion(self) -> Scene {
        Scene { ball: self.ball.moved(self.ball.velocity), ..self }
    }

    /// The scene when the paddles have followed the keys and the ball has
    /// moved.
    pub open spec fn moved(self, input: Input) -> Scene {
        self.after_input(input).after_motion()
    }

    /// The paddle that the ball overlaps, if any. Player one's is looked at
    /// first, and player two's only if the ball does not overlap that.
    pub open spec fn struck(self) -> Option<Player> {
        if self.ball.bounds().intersects(self.player1.bounds()) {
            Some(Player::One)
        } else if self.ball.bounds().intersects(self.player2.bounds()) {
            Some(Player::Two)
        } else {
            None
        }
    }

    /// The factor by which the grain is refined in this phase: that of the
    /// paddle which returns the ball, and 1 where none does.
    pub open spec fn refinement(self) -> int {
        match self.struck() {
            Some(player) => refinement(self.ball, self.paddle(player)),
            None => 1,
        }
    }

    /// Then a paddle that the ball overlaps returns it: the grain is refined
    /// as far as the spin needs, the ball's horizontal speed is reversed and
    /// quickened and the spin is added to its vertical speed.
    pub open spec fn after_paddles(self) -> Scene {
        match self.struck() {
            Some(player) => {
                let finer = self.refined(self.refinement());
                Scene {
                    ball: finer.ball.moving(
                        Point {
                            x: rebound_of(finer.ball.velocity.x, finer.ball.grain),
                            y: finer.ball.velocity.y + spin_of(self.ball, self.paddle(player)),
                        },
                    ),
                    ..finer
                }
            },
            None => self,
        }
    }

    /// The ball's top edge is at or above the top of the playfield, or its
    /// bottom edge at or below the bottom.
    pub open spec fn at_wall(self) -> bool {
        self.ball.position.y <= 0 || self.ball.position.y + self.ball.height() >= self.height
            * self.ball.grain
    }

    /// Then a ball at the top or bottom wall turns back. Its position is left
    /// as it is.
    pub open spec fn after_walls(self) -> Scene {
        if self.at_wall() {
            Scene {
                ball: self.ball.moving(Point { x: self.ball.velocity.x, y: -self.ball.velocity.y }),
                ..self
            }
        } else {
            self
        }
    }

    /// One tick: the four phases in their order.
    pub open spec fn step(self, input: Input) -> Scene {
        self.after_input(input).after_motion().after_paddles().after_walls()
    }

    /// Player two wins when the ball's left edge has left the playfield on
    /// the left, player one when its right edge has gone beyond the
    /// playfield's width.
    pub open spec fn verdict(self) -> Verdict {
        Verdict {
            player2_wins: self.ball.position.x < 0,
            player1_wins: self.ball.position.x + self.ball.width() > self.width * self.ball.grain,
        }
    }

    /// The scene after one tick for each entry of `inputs`, in their order.
    pub open spec fn run(self, inputs: Seq<Input>) -> Scene
        decreases inputs.len(),
    {
        if inputs.len() == 0 {
            self
        } else {
            self.run(inputs.drop_last()).step(inputs.last())
        }
    }

    /// In none of the ticks of `inputs` does the ball, once it has moved,
    /// overlap a paddle.
    pub open spec fn unstruck_during(self, inputs: Seq<Input>) -> bool {
        forall|k: int|
            0 <= k < inputs.len() ==> (#[trigger] self.run(inputs.take(k))).moved(
                inputs[k],
            ).struck().is_none()
    }
}

/// A tick keeps a well-formed scene well-formed. It refines the grain of all
/// three bodies by one factor, which is 1 unless a paddle returns the ball,
/// and changes neither the playfield nor the size of any image.
pub proof fn lemma_step_refines(scene: Scene, input: Input)
    requires
        scene.wf(),
    ensures
        scene.moved(input).refinement() >= 1,
        scene.moved(input).struck().is_none() ==> scene.moved(input).refinement() == 1,
        scene.step(input).wf(),
        scene.step(input).ball.grain == scene.ball.grain * scene.moved(input).refinement(),
        scene.step(input).width == scene.width,
        scene.step(input).height == scene.height,
        scene.step(input).player1.pixel_width == scene.player1.pixel_width,
        scene.step(input).player1.pixel_height == scene.player1.pixel_height,
        scene.step(input).player2.pixel_width == scene.player2.pixel_width,
        scene.step(input).player2.pixel_height == scene.player2.pixel_height,
        scene.step(input).ball.pixel_width == scene.ball.pixel_width,
        scene.step(input).ball.pixel_height == scene.ball.pixel_height,
{
    let f = scene.moved(input).refinement();
    let g = scene.ball.grain;
    assert(g * f >= 1) by (nonlinear_arith)
        requires
            g >= 1,
            f >= 1,
    ;
    assert(g * 1 == g);
}

/// In every tick the ball moves by exactly the velocity that it had when the
/// tick began, whatever it strikes: its new position is the old one moved by
/// the old velocity, counted at the grain of the end of the tick.
pub proof fn lemma_ball_moves_by_velocity(scene: Scene, input: Input)
    ensures
        scene.step(input).ball.position == scene.ball.position.plus(scene.ball.velocity).times(
            scene.moved(input).refinement(),
        ),
{
    let sum = scene.ball.position.plus(scene.ball.velocity);
    assert(sum.x * 1 == sum.x && sum.y * 1 == sum.y);
}

/// A ball that overlaps no paddle and has reached no wall keeps its velocity.
pub proof fn lemma_free_ball_keeps_velocity(scene: Scene, input: Input)
    requires
        scene.moved(input).struck().is_none(),
        !scene.moved(input).at_wall(),
    ensures
        scene.step(input).ball == scene.ball.moved(scene.ball.velocity),
{
}

/// A ball that overlaps no paddle keeps its horizontal velocity, and the
/// magnitude of its vertical velocity.
pub proof fn lemma_unstruck_ball_keeps_course(scene: Scene, input: Input)
    requires
        scene.moved(input).struck().is_none(),
    ensures
        scene.step(input).ball.grain == scene.ball.grain,
        scene.step(input).ball.velocity.x == scene.ball.velocity.x,
        magnitude(scene.step(input).ball.velocity.y) == magnitude(scene.ball.velocity.y),
{
}

/// A paddle reverses a moving ball and makes it faster by `BALL_ACCEL`.
pub proof fn lemma_rebound_accelerates(vx: int, grain: int)
    requires
        vx != 0,
        grain >= 1,
    ensures
        magnitude(rebound_of(vx, grain)) == magnitude(vx) + BALL_ACCEL * grain,
        sign(rebound_of(vx, grain)) == -sign(vx),
{
    assert(BALL_ACCEL * grain * 1 == BALL_ACCEL * grain) by (nonlinear_arith);
    assert(BALL_ACCEL * grain * (-1) == -(BALL_ACCEL * grain)) by (nonlinear_arith);
    assert(BALL_ACCEL * grain >= 1) by (nonlinear_arith)
        requires
            grain >= 1,
    ;
}

/// A ball that overlaps a paddle after it has moved leaves the tick with
/// its horizontal velocity reversed and greater in magnitude by
/// `BALL_ACCEL`, both counted at the grain of the end of the tick.
pub proof fn lemma_struck_ball_rebounds(scene: Scene, input: Input)
    requires
        scene.wf(),
        scene.moved(input).struck().is_some(),
        scene.ball.velocity.x != 0,
    ensures
        magnitude(scene.step(input).ball.velocity.x) == magnitude(scene.ball.velocity.x)
            * scene.moved(input).refinement() + BALL_ACCEL * scene.step(input).ball.grain,
        scene.ball.velocity.x > 0 ==> scene.step(input).ball.velocity.x < 0,
        scene.ball.velocity.x < 0 ==> scene.step(input).ball.velocity.x > 0,
{
    let f = scene.moved(input).refinement();
    let vx = scene.ball.velocity.x;
    let g = scene.ball.grain;
    lemma_step_refines(scene, input);
    assert(vx > 0 ==> vx * f > 0 && magnitude(vx * f) == magnitude(vx) * f) by (nonlinear_arith)
        requires
            f >= 1,
    ;
    assert(vx < 0 ==> vx * f < 0 && magnitude(vx * f) == magnitude(vx) * f) by (nonlinear_arith)
        requires
            f >= 1,
    ;
    assert(g * f >= 1) by (nonlinear_arith)
        requires
            g >= 1,
            f >= 1,
    ;
    lemma_rebound_accelerates(vx * f, g * f);
}

/// The paddle that returns the ball adds to its vertical velocity exactly
/// `PADDLE_SPIN` times the height of the ball's centre below the paddle's,
/// divided by the paddle's height: the added speed times the paddle's height
/// is `PADDLE_SPIN` times that distance, all counted at the grain after the
/// return. A ball below the paddle's centre is sent further down, a ball
/// above it further up, and a ball level with it gets no spin.
pub proof fn lemma_spin_is_exact(scene: Scene, player: Player)
    requires
        scene.wf(),
        scene.struck() == Some(player),
    ensures
        ({
            let after = scene.after_paddles();
            let added = after.ball.velocity.y - scene.ball.velocity.y * scene.refinement();
            let below = drop_below(after.ball, after.paddle(player));
            &&& added * after.paddle(player).height() == PADDLE_SPIN * after.ball.grain * below
            &&& below == drop_below(scene.ball, scene.paddle(player)) * scene.refinement()
            &&& below > 0 ==> added > 0
            &&& below == 0 ==> added == 0
            &&& below < 0 ==> added < 0
        }),
{
    let paddle = scene.paddle(player);
    let f = scene.refinement();
    let after = scene.after_paddles();
    let d = drop_below(scene.ball, paddle);
    let h = paddle.pixel_height;
    let g = paddle.grain;
    let added = spin_of(scene.ball, paddle);
    lemma_refined_body_is_the_same(scene.ball, f);
    lemma_refined_body_is_the_same(paddle, f);
    assert(after.paddle(player) == paddle.refined(f));
    assert(after.ball.centre() == scene.ball.refined(f).centre());
    assert(drop_below(after.ball, after.paddle(player)) == d * f) by (nonlinear_arith)
        requires
            drop_below(after.ball, after.paddle(player)) == scene.ball.centre().y * f
                - paddle.centre().y * f,
            d == scene.ball.centre().y - paddle.centre().y,
    ;
    assert(after.ball.grain == g * f);
    if spin_is_whole(scene.ball, paddle) {
        vstd::arithmetic::div_mod::lemma_fundamental_div_mod(SPIN_PIXELS * d, h);
        assert(added * h == 4 * d) by (nonlinear_arith)
            requires
                4 * d == h * added + 0,
        ;
        assert(added * (h * 1000 * (g * 1)) == 4000 * (g * 1) * (d * 1)) by (nonlinear_arith)
            requires
                added * h == 4 * d,
        ;
        assert(d > 0 ==> added > 0) by (nonlinear_arith)
            requires
                added * h == 4 * d,
                h > 0,
        ;
        assert(d < 0 ==> added < 0) by (nonlinear_arith)
            requires
                added * h == 4 * d,
                h > 0,
        ;
        assert(d == 0 ==> added == 0) by (nonlinear_arith)
            requires
                added * h == 4 * d,
                h > 0,
        ;
        assert(d * 1 == d);
    } else {
        assert(4 * d * (h * 1000 * (g * h)) == 4000 * (g * h) * (d * h)) by (nonlinear_arith);
        assert(d > 0 ==> d * h > 0) by (nonlinear_arith)
            requires
                h > 0,
        ;
        assert(d < 0 ==> d * h < 0) by (nonlinear_arith)
            requires
                h > 0,
        ;
        assert(d == 0 ==> d * h == 0) by (nonlinear_arith);
    }
}

/// The walls and the verdict look at the ball where it has moved to: a
/// paddle that returns it changes neither whether it is at a wall nor who
/// wins.
pub proof fn lemma_return_keeps_wall_and_verdict(scene: Scene)
    requires
        scene.wf(),
    ensures
        scene.after_paddles().at_wall() == scene.at_wall(),
        scene.after_paddles().verdict() == scene.verdict(),
        scene.after_paddles().after_walls().verdict() == scene.verdict(),
{
    let f = scene.refinement();
    let ball = scene.ball;
    let g = ball.grain;
    lemma_refined_body_is_the_same(ball, f);
    if scene.struck().is_some() {
        let y = ball.position.y;
        let x = ball.position.x;
        let bh = ball.height();
        let bw = ball.width();
        let fh = scene.height;
        let fw = scene.width;
        assert((y * f <= 0) == (y <= 0)) by (nonlinear_arith)
            requires
                f >= 1,
        ;
        assert((x * f < 0) == (x < 0)) by (nonlinear_arith)
            requires
                f >= 1,
        ;
        assert((y * f + bh * f >= fh * (g * f)) == (y + bh >= fh * g)) by (nonlinear_arith)
            requires
                f >= 1,
        ;
        assert((x * f + bw * f > fw * (g * f)) == (x + bw > fw * g)) by (nonlinear_arith)
            requires
                f >= 1,
        ;
    }
}

/// A ball that has reached the top or the bottom wall, and overlaps no
/// paddle, leaves the tick with its vertical velocity reversed.
pub proof fn lemma_wall_turns_ball(scene: Scene, input: Input)
    requires
        scene.moved(input).struck().is_none(),
        scene.moved(input).at_wall(),
    ensures
        scene.step(input).ball.velocity.y == -scene.ball.velocity.y,
        scene.step(input).ball.velocity.x == scene.ball.velocity.x,
{
}

/// Whatever the paddles have done to the ball, a wall that the moved ball
/// has reached then reverses its vertical velocity, and no wall changes
/// anything else.
pub proof fn lemma_wall_reverses_after_paddles(scene: Scene, input: Input)
    requires
        scene.wf(),
    ensures
        ({
            let returned = scene.moved(input).after_paddles();
            &&& scene.step(input).ball.velocity.y == if scene.moved(input).at_wall() {
                -returned.ball.velocity.y
            } else {
                returned.ball.velocity.y
            }
            &&& scene.step(input).ball.velocity.x == returned.ball.velocity.x
            &&& scene.step(input).ball.position == returned.ball.position
        }),
{
    lemma_return_keeps_wall_and_verdict(scene.moved(input));
}

/// A ball whose top edge comes to lie exactly on the top of the playfield is
/// at the wall.
pub proof fn lemma_ball_on_top_edge_is_at_wall(scene: Scene, input: Input)
    requires
        scene.ball.position.y + scene.ball.velocity.y == 0,
    ensures
        scene.moved(input).at_wall(),
{
}

/// The verdict of a tick is that of the scene in which the ball has moved:
/// player two wins exactly if the moved ball's left edge is left of the
/// playfield, player one exactly if its right edge is beyond the playfield's
/// width.
pub proof fn lemma_verdict_follows_motion(scene: Scene, input: Input)
    requires
        scene.wf(),
    ensures
        scene.step(input).verdict().player2_wins == (scene.ball.position.x
            + scene.ball.velocity.x < 0),
        scene.step(input).verdict().player1_wins == (scene.ball.position.x
            + scene.ball.velocity.x + scene.ball.width() > scene.width * scene.ball.grain),
{
    lemma_return_keeps_wall_and_verdict(scene.moved(input));
}

/// A tick moves each paddle vertically by `PADDLE_SPEED`: up while only its
/// up key is held, down while only its down key is held, and not at all
/// while both or neither are. It changes nothing else of a paddle but the
/// grain in which its lengths are counted.
pub proof fn lemma_paddles_follow_keys(scene: Scene, input: Input)
    ensures
        scene.step(input).player1 == scene.player1.moved(
            Point {
                x: 0,
                y: paddle_shift(input.player1_up, input.player1_down) * scene.player1.grain,
            },
        ).refined(scene.moved(input).refinement()),
        scene.step(input).player2 == scene.player2.moved(
            Point {
                x: 0,
                y: paddle_shift(input.player2_up, input.player2_down) * scene.player2.grain,
            },
        ).refined(scene.moved(input).refinement()),
        paddle_shift(true, false) == -PADDLE_SPEED,
        paddle_shift(false, true) == PADDLE_SPEED,
        paddle_shift(true, true) == 0,
        paddle_shift(false, false) == 0,
{
    let m = scene.moved(input);
    if m.struck().is_none() {
        let one = m.player1;
        let two = m.player2;
        assert(one.refined(1) == one) by {
            assert(one.grain * 1 == one.grain);
            assert(one.position.times(1) == one.position);
            assert(one.velocity.times(1) == one.velocity);
        }
        assert(two.refined(1) == two) by {
            assert(two.grain * 1 == two.grain);
            assert(two.position.times(1) == two.position);
            assert(two.velocity.times(1) == two.velocity);
        }
    }
}

/// Both players can win in one tick only on a playfield narrower than the
/// ball.
pub proof fn lemma_one_winner_on_wide_field(scene: Scene)
    requires
        scene.width * scene.ball.grain >= scene.ball.width(),
    ensures
        !(scene.verdict().player1_wins && scene.verdict().player2_wins),
{
}

/// As long as no player has won, the ball lies between the left and the
/// right edge of the playfield.
pub proof fn lemma_undecided_ball_is_on_the_playfield(scene: Scene)
    requires
        !scene.verdict().is_final(),
    ensures
        0 <= scene.ball.position.x,
        scene.ball.position.x + scene.ball.width() <= scene.width * scene.ball.grain,
{
}

/// A served ball with no paddle in its way comes `BALL_SPEED` closer to
/// player one's edge in each tick, and player two wins in the tick in which
/// it crosses that edge.
pub proof fn lemma_served_ball_runs_left(scene: Scene, input: Input)
    requires
        scene.ball.velocity.x == -BALL_SPEED * scene.ball.grain,
        scene.moved(input).struck().is_none(),
    ensures
        scene.step(input).ball.grain == scene.ball.grain,
        scene.step(input).ball.position.x == scene.ball.position.x - BALL_SPEED
            * scene.ball.grain,
        scene.step(input).ball.velocity.x == -BALL_SPEED * scene.ball.grain,
        scene.step(input).verdict().player2_wins == (scene.ball.position.x < BALL_SPEED
            * scene.ball.grain),
{
    assert(-BALL_SPEED * scene.ball.grain == -(BALL_SPEED * scene.ball.grain))
        by (nonlinear_arith);
}

/// While no paddle is struck the ball keeps its grain and its horizontal
/// velocity, so that after any number of ticks it has moved horizontally by
/// that many times its velocity.
pub proof fn lemma_unstruck_ball_runs_straight(scene: Scene, inputs: Seq<Input>)
    requires
        scene.unstruck_during(inputs),
    ensures
        scene.run(inputs).ball.grain == scene.ball.grain,
        scene.run(inputs).ball.velocity.x == scene.ball.velocity.x,
        scene.run(inputs).ball.position.x == scene.ball.position.x + inputs.len()
            * scene.ball.velocity.x,
    decreases inputs.len(),
{
    if inputs.len() > 0 {
        let earlier = inputs.drop_last();
        let k = inputs.len() - 1;
        assert forall|j: int| 0 <= j < earlier.len() implies (#[trigger] scene.run(
            earlier.take(j),
        )).moved(earlier[j]).struck().is_none() by {
            assert(earlier.take(j) == inputs.take(j));
        }
        lemma_unstruck_ball_runs_straight(scene, earlier);
        assert(inputs.take(k) == earlier);
        let before = scene.run(inputs.take(k));
        assert(before.moved(inputs[k]).struck().is_none());
        assert((k + 1) * scene.ball.velocity.x == k * scene.ball.velocity.x
            + scene.ball.velocity.x) by (nonlinear_arith);
    }
}

} // verus!
