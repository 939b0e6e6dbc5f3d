//! A body of the game: a paddle or the ball.

use vstd::prelude::*;
use crate::math::{Point, Rectangle, Region, Vec2};
use crate::units::{quotient_toward_zero, rounded_quotient, HALF_PIXEL, UNITS_PER_PIXEL};

verus! {

/// What the game reads of an entity's image: its size in whole pixels.
#[derive(Clone, Copy, Debug, PartialEq, Eq, Structural)]
pub struct Visual {
    pub width: i32,
    pub height: i32,
}

impl Visual {
    /// An image has at least one pixel in each direction.
    pub open spec fn wf(&self) -> bool {
        self.width > 0 && self.height > 0
    }

    /// The image size of `width` by `height` pixels.
    pub fn new(width: i32, height: i32) -> (visual: Visual)
        ensures
            visual == (Visual { width, height }),
    {
        Visual { width, height }
    }
}

/// The mathematical value of an [`Entity`]. Its lengths count parts of a
/// base unit, `grain` parts to the unit, so that a length `l` is `l / grain`
/// thousandths of a pixel. Two bodies of one grain can be compared and added
/// by their lengths as they stand.
pub ghost struct Body {
    pub pixel_width: int,
    pub pixel_height: int,
    pub grain: int,
    pub position: Point,
    pub velocity: Point,
}

impl Body {
    /// The body at grain 1 that is nearest to this one: every length is
    /// divided by the grain and rounded toward zero. A body of grain 1 is
    /// left as it is.
    pub open spec fn coarsened(self) -> Body {
        Body {
            grain: 1,
            position: Point {
                x: quotient_toward_zero(self.position.x, self.grain),
                y: quotient_toward_zero(self.position.y, self.grain),
            },
            velocity: Point {
                x: quotient_toward_zero(self.velocity.x, self.grain),
                y: quotient_toward_zero(self.velocity.y, self.grain),
            },
            ..self
        }
    }

    /// The width of the image, as a length.
    pub open spec fn width(self) -> int {
        self.pixel_width * UNITS_PER_PIXEL * self.grain
    }

    /// The height of the image, as a length.
    pub open spec fn height(self) -> int {
        self.pixel_height * UNITS_PER_PIXEL * self.grain
    }

    /// The bounding box.
    pub open spec fn bounds(self) -> Region {
        Region {
            x: self.position.x,
            y: self.position.y,
            width: self.width(),
            height: self.height(),
        }
    }

    /// The middle of the bounding box.
    pub open spec fn centre(self) -> Point {
        Point {
            x: self.position.x + self.pixel_width * HALF_PIXEL * self.grain,
            y: self.position.y + self.pixel_height * HALF_PIXEL * self.grain,
        }
    }

    /// The same body, displaced by `by`.
    pub open spec fn moved(self, by: Point) -> Body {
        Body { position: self.position.plus(by), ..self }
    }

    /// The same body with another velocity.
    pub open spec fn moving(self, velocity: Point) -> Body {
        Body { velocity, ..self }
    }

    /// The same body at the same place and speed, with every length counted
    /// in parts `factor` times as fine.
    pub open spec fn refined(self, factor: int) -> Body {
        Body {
            grain: self.grain * factor,
            position: self.position.times(factor),
            velocity: self.velocity.times(factor),
            ..self
        }
    }
}

/// A rectangular body with a position and a velocity. Its lengths count
/// parts of a base unit, `grain` parts to the unit.
#[derive(Clone, Copy, Debug, PartialEq, Eq, Structural)]
pub struct Entity {
    pub visual: Visual,
    pub position: Vec2,
    pub velocity: Vec2,
    pub grain: i128,
}

impl View for Entity {
    type V = Body;

    open spec fn view(&self) -> Body {
        Body {
            pixel_width: self.visual.width as int,
            pixel_height: self.visual.height as int,
            grain: self.grain as int,
            position: self.position@,
            velocity: self.velocity@,
        }
    }
}

impl Entity {
    /// An entity at rest, with its position in base units.
    pub fn new(visual: Visual, position: Vec2) -> (entity: Entity)
        ensures
            entity == (Entity { visual, position, velocity: Vec2 { x: 0, y: 0 }, grain: 1 }),
    {
        Entity::with_velocity(visual, position, Vec2::zero())
    }

    /// An entity that moves by `velocity` in each tick, with its position and
    /// velocity in base units.
    pub fn with_velocity(visual: Visual, position: Vec2, velocity: Vec2) -> (entity: Entity)
        ensures
            entity == (Entity { visual, position, velocity, grain: 1 }),
    {
        Entity { visual, position, velocity, grain: 1 }
    }

    /// The width and the height fit in machine integers.
    pub open spec fn size_fits(&self) -> bool {
        &&& i128::MIN <= self@.width() <= i128::MAX
        &&& i128::MIN <= self@.height() <= i128::MAX
    }

    /// The width of the image, as a length.
    pub fn width(&self) -> (w: i128)
        requires
            i128::MIN <= self@.width() <= i128::MAX,
        ensures
            w == self@.width(),
    {
        self.visual.width as i128 * UNITS_PER_PIXEL * self.grain
    }

    /// The height of the image, as a length.
    pub fn height(&self) -> (h: i128)
        requires
            i128::MIN <= self@.height() <= i128::MAX,
        ensures
            h == self@.height(),
    {
        self.visual.height as i128 * UNITS_PER_PIXEL * self.grain
    }

    /// The bounding box, for intersection tests: the position, the width and
    /// the height as they are at the time of the call.
    pub fn bounds(&self) -> (r: Rectangle)
        requires
            self.size_fits(),
        ensures
            r@ == self@.bounds(),
    {
        Rectangle::new(self.position.x, self.position.y, self.width(), self.height())
    }

    /// The centre fits in machine integers.
    pub open spec fn centre_fits(&self) -> bool {
        &&& i128::MIN <= self.visual.width * HALF_PIXEL * self.grain <= i128::MAX
        &&& i128::MIN <= self.visual.height * HALF_PIXEL * self.grain <= i128::MAX
        &&& i128::MIN <= self@.centre().x <= i128::MAX
        &&& i128::MIN <= self@.centre().y <= i128::MAX
    }

    /// The middle of the bounding box: the position moved by half the width
    /// and half the height.
    pub fn centre(&self) -> (c: Vec2)
        requires
            self.centre_fits(),
        ensures
            c@ == self@.centre(),
    {
        Vec2::new(
            self.position.x + self.visual.width as i128 * HALF_PIXEL * self.grain,
            self.position.y + self.visual.height as i128 * HALF_PIXEL * self.grain,
        )
    }

    /// Every length of the entity, taken `factor` times, fits in machine
    /// integers.
    pub open spec fn refinable_by(&self, factor: int) -> bool {
        &&& i128::MIN <= self.grain * factor <= i128::MAX
        &&& i128::MIN <= self.position.x * factor <= i128::MAX
        &&& i128::MIN <= self.position.y * factor <= i128::MAX
        &&& i128::MIN <= self.velocity.x * factor <= i128::MAX
        &&& i128::MIN <= self.velocity.y * factor <= i128::MAX
    }

    /// The same entity at the same place and speed, with every length counted
    /// in parts `factor` times as fine.
    pub fn refined(&self, factor: i128) -> (finer: Entity)
        requires
            self.refinable_by(factor as int),
        ensures
            finer@ == self@.refined(factor as int),
            finer.visual == self.visual,
    {
        Entity {
            visual: self.visual,
            position: Vec2::new(self.position.x * factor, self.position.y * factor),
            velocity: Vec2::new(self.velocity.x * factor, self.velocity.y * factor),
            grain: self.grain * factor,
        }
    }
}

impl Entity {
    /// No coordinate is the least machine integer, whose magnitude is no
    /// machine integer.
    pub open spec fn has_magnitudes(&self) -> bool {
        &&& self.position.x > i128::MIN
        &&& self.position.y > i128::MIN
        &&& self.velocity.x > i128::MIN
        &&& self.velocity.y > i128::MIN
    }

    /// The entity at grain 1 that is nearest to this one: every length is
    /// divided by the grain and rounded toward zero. This gives up, once,
    /// less than a thousandth of a pixel in each length, and makes room for
    /// the grain to be refined again.
    pub fn coarsened(&self) -> (coarser: Entity)
        requires
            self.grain >= 1,
            self.has_magnitudes(),
        ensures
            coarser@ == self@.coarsened(),
            coarser.visual == self.visual,
            self.grain == 1 ==> coarser == *self,
    {
        Entity {
            visual: self.visual,
            position: Vec2::new(
                rounded_quotient(self.position.x, self.grain),
                rounded_quotient(self.position.y, self.grain),
            ),
            velocity: Vec2::new(
                rounded_quotient(self.velocity.x, self.grain),
                rounded_quotient(self.velocity.y, self.grain),
            ),
            grain: 1,
        }
    }
}

/// Refining a body changes neither where its edges and its centre lie nor
/// how far it moves in a tick: each of those lengths is taken `factor`
/// times, as the grain is.
pub proof fn lemma_refined_body_is_the_same(body: Body, factor: int)
    ensures
        body.refined(factor).width() == body.width() * factor,
        body.refined(factor).height() == body.height() * factor,
        body.refined(factor).centre() == body.centre().times(factor),
        body.refined(factor).position == body.position.times(factor),
        body.refined(factor).velocity == body.velocity.times(factor),
        body.refined(factor).grain == body.grain * factor,
{
    let w = body.pixel_width;
    let h = body.pixel_height;
    let g = body.grain;
    assert(w * UNITS_PER_PIXEL * (g * factor) == w * UNITS_PER_PIXEL * g * factor)
        by (nonlinear_arith);
    assert(h * UNITS_PER_PIXEL * (g * factor) == h * UNITS_PER_PIXEL * g * factor)
        by (nonlinear_arith);
    assert(body.position.x * factor + w * HALF_PIXEL * (g * factor) == (body.position.x + w
        * HALF_PIXEL * g) * factor) by (nonlinear_arith);
    assert(body.position.y * factor + h * HALF_PIXEL * (g * factor) == (body.position.y + h
        * HALF_PIXEL * g) * factor) by (nonlinear_arith);
}

} // verus!
