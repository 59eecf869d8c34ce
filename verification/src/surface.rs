//! The surface being plotted: a bivariate scalar field and its analytic
//! gradient, evaluated exactly.
//!
//! Grid sample coordinates are rationals whose denominator is the grid
//! step count, so the unit square maps onto the domain without rounding.
//! Heights and slopes are micro-unit integers.  A surface is supplied as
//! an implementation of [`SurfaceFunction`], a capability with a spec
//! side (what the field is) and an exec side proved to agree with it.

use vstd::prelude::*;
use crate::numeric::div_trunc;
use crate::numeric::div_trunc_i64;
use crate::numeric::lemma_div_trunc_scaled;

verus! {

/// Largest slope or offset magnitude, in micro units, that a surface
/// implementation may report.  The bound keeps every mesh-side
/// combination of heights and slopes inside `i64`.
pub const MAX_SLOPE: i64 = 1_000_000_000_000;

/// Largest denominator a sample coordinate may carry; one less than the
/// 16-bit index width of the render interface, so any regular grid this
/// crate can emit is representable.
pub const MAX_DEN: u32 = 65_535;

/// An exact sample coordinate `num / den`, kept inside the unit-sized
/// domain `[-1, 1]`.
#[derive(Clone, Copy, Debug, PartialEq, Eq, Structural)]
pub struct Rational {
    /// Numerator; its magnitude never exceeds the denominator.
    pub num: i32,
    /// Positive denominator, the grid step count.
    pub den: u32,
}

impl Rational {
    /// A coordinate is valid when it lies in `[-1, 1]` with a positive
    /// denominator small enough for any grid this crate generates.
    pub open spec fn valid(self) -> bool {
        &&& 1 <= self.den <= MAX_DEN
        &&& -(self.den as int) <= self.num as int <= self.den as int
    }

    /// Build a coordinate, refusing one outside the domain.
    pub fn new(num: i32, den: u32) -> (r: Option<Rational>)
        ensures
            r is Some <==> (Rational { num, den }).valid(),
            r matches Some(c) ==> c == (Rational { num, den }),
    {
        if 1 <= den && den <= MAX_DEN && -(den as i64) <= num as i64 && num as i64 <= den as i64 {
            Some(Rational { num, den })
        } else {
            None
        }
    }
}

/// A plottable scalar field `f(x, y)` with its analytic gradient.
///
/// The spec functions state what the field and its partial derivatives
/// are; the exec methods are proved to return exactly those values.
/// `wf` lets an implementation restrict its own parameters (for example
/// to keep evaluation inside `i64`); the mesh generator requires it.
pub trait SurfaceFunction: Sized {
    /// The implementation's own parameters are within its supported
    /// range.
    spec fn wf(&self) -> bool;

    /// The field value at `(x, y)`, in micro units.
    spec fn spec_height(&self, x: Rational, y: Rational) -> i64;

    /// The partial derivative of the field along `x`, in micro units.
    spec fn spec_grad_x(&self, x: Rational, y: Rational) -> i64;

    /// The partial derivative of the field along `y`, in micro units.
    spec fn spec_grad_y(&self, x: Rational, y: Rational) -> i64;

    /// Evaluate the field.
    fn height(&self, x: Rational, y: Rational) -> (h: i64)
        requires
            self.wf(),
            x.valid(),
            y.valid(),
        ensures
            h == self.spec_height(x, y),
    ;

    /// Evaluate the gradient.  Reported slopes are bounded so that the
    /// mesh generator can negate them into normals.
    fn gradient(&self, x: Rational, y: Rational) -> (g: (i64, i64))
        requires
            self.wf(),
            x.valid(),
            y.valid(),
        ensures
            g.0 == self.spec_grad_x(x, y),
            g.1 == self.spec_grad_y(x, y),
            -MAX_SLOPE <= g.0 <= MAX_SLOPE,
            -MAX_SLOPE <= g.1 <= MAX_SLOPE,
    ;
}

/// The constant field `f(x, y) = level`, with gradient zero everywhere.
#[derive(Clone, Copy, Debug, PartialEq, Eq, Structural)]
pub struct FlatSurface {
    /// The constant height, in micro units.
    pub level: i64,
}

impl SurfaceFunction for FlatSurface {
    open spec fn wf(&self) -> bool {
        true
    }

    open spec fn spec_height(&self, x: Rational, y: Rational) -> i64 {
        self.level
    }

    open spec fn spec_grad_x(&self, x: Rational, y: Rational) -> i64 {
        0
    }

    open spec fn spec_grad_y(&self, x: Rational, y: Rational) -> i64 {
        0
    }

    fn height(&self, x: Rational, y: Rational) -> (h: i64) {
        self.level
    }

    fn gradient(&self, x: Rational, y: Rational) -> (g: (i64, i64)) {
        (0, 0)
    }
}

/// The affine field `f(x, y) = slope_x * x + slope_y * y + offset`,
/// with constant gradient `(slope_x, slope_y)`.  Each term is evaluated
/// exactly on the sample rational and truncated toward zero.
#[derive(Clone, Copy, Debug, PartialEq, Eq, Structural)]
pub struct LinearSurface {
    /// Slope along `x`, in micro units per unit.
    pub slope_x: i64,
    /// Slope along `y`, in micro units per unit.
    pub slope_y: i64,
    /// Height at the origin, in micro units.
    pub offset: i64,
}

impl LinearSurface {
    /// Build an affine surface, refusing parameters whose evaluation
    /// could leave `i64`.
    pub fn new(slope_x: i64, slope_y: i64, offset: i64) -> (r: Option<LinearSurface>)
        ensures
            r is Some <==> (LinearSurface { slope_x, slope_y, offset }).wf(),
            r matches Some(s) ==> s == (LinearSurface { slope_x, slope_y, offset }),
    {
        if -MAX_SLOPE <= slope_x && slope_x <= MAX_SLOPE && -MAX_SLOPE <= slope_y && slope_y
            <= MAX_SLOPE && -MAX_SLOPE <= offset && offset <= MAX_SLOPE {
            Some(LinearSurface { slope_x, slope_y, offset })
        } else {
            None
        }
    }
}

/// One exactly evaluated term `slope * num / den` of an affine field.
fn linear_term(slope: i64, c: Rational) -> (t: i64)
    requires
        -MAX_SLOPE <= slope <= MAX_SLOPE,
        c.valid(),
    ensures
        t == div_trunc(slope as int * c.num as int, c.den as int),
        -MAX_SLOPE <= t <= MAX_SLOPE,
{
    proof {
        assert(-(MAX_SLOPE as int) * (c.den as int) <= slope as int * c.num as int <= (
        MAX_SLOPE as int) * (c.den as int)) by (nonlinear_arith)
            requires
                -MAX_SLOPE <= slope <= MAX_SLOPE,
                1 <= c.den,
                -(c.den as int) <= c.num as int <= c.den as int,
        ;
        lemma_div_trunc_scaled(slope as int * c.num as int, c.den as int, MAX_SLOPE as int);
        assert(slope as int * c.num as int <= MAX_SLOPE as int * MAX_DEN as int)
            by (nonlinear_arith)
            requires
                -MAX_SLOPE <= slope <= MAX_SLOPE,
                1 <= c.den <= MAX_DEN,
                -(c.den as int) <= c.num as int <= c.den as int,
        ;
        assert(-(MAX_SLOPE as int) * (MAX_DEN as int) <= slope as int * c.num as int)
            by (nonlinear_arith)
            requires
                -MAX_SLOPE <= slope <= MAX_SLOPE,
                1 <= c.den <= MAX_DEN,
                -(c.den as int) <= c.num as int <= c.den as int,
        ;
    }
    let product: i64 = slope * (c.num as i64);
    div_trunc_i64(product, c.den as i64)
}

impl SurfaceFunction for LinearSurface {
    open spec fn wf(&self) -> bool {
        &&& -MAX_SLOPE <= self.slope_x <= MAX_SLOPE
        &&& -MAX_SLOPE <= self.slope_y <= MAX_SLOPE
        &&& -MAX_SLOPE <= self.offset <= MAX_SLOPE
    }

    open spec fn spec_height(&self, x: Rational, y: Rational) -> i64 {
        (div_trunc(self.slope_x as int * x.num as int, x.den as int) + div_trunc(
            self.slope_y as int * y.num as int,
            y.den as int,
        ) + self.offset) as i64
    }

    open spec fn spec_grad_x(&self, x: Rational, y: Rational) -> i64 {
        self.slope_x
    }

    open spec fn spec_grad_y(&self, x: Rational, y: Rational) -> i64 {
        self.slope_y
    }

    fn height(&self, x: Rational, y: Rational) -> (h: i64) {
        let tx = linear_term(self.slope_x, x);
        let ty = linear_term(self.slope_y, y);
        tx + ty + self.offset
    }

    fn gradient(&self, x: Rational, y: Rational) -> (g: (i64, i64)) {
        (self.slope_x, self.slope_y)
    }
}

} // verus!
