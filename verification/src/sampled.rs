//! A surface given by exact per-sample values instead of a closed
//! form.
//!
//! Analytic forms whose values this crate cannot compute exactly (a
//! sine field, a Gaussian bump) are plotted by tabulating: the host
//! evaluates the function and its gradient at every grid sample in its
//! own numeric type, quantizes to micro units, and hands the tables
//! over.  From then on the tables *are* the surface: the tessellation
//! contracts place each tabulated value at exactly the right sample.
//!
//! Tables are row-major over a `(den + 1) x (den + 1)` grid and are
//! looked up through the same coordinate mapping the mesh generator
//! uses, so a coordinate with a foreign denominator reads as zero.

use vstd::prelude::*;
use crate::surface::Rational;
use crate::surface::SurfaceFunction;
use crate::surface::MAX_SLOPE;

verus! {

/// Largest step count of a sample table: one less than the largest
/// supported grid resolution.
pub const MAX_SAMPLE_DEN: u32 = 255;

/// Row-major table position of the grid sample at `(x, y)` for step
/// count `den`: column `(x.num + den) / 2`, row `(den - y.num) / 2`.
pub open spec fn sample_index(x: Rational, y: Rational, den: int) -> int {
    ((den - y.num) / 2) * (den + 1) + ((x.num + den) / 2)
}

/// A surface tabulated at every sample of one grid.
pub struct SampledSurface {
    /// Step count of the grid the tables cover; sample coordinates
    /// carry this denominator.
    pub den: u32,
    /// Field values in micro units, row-major, `(den + 1)^2` entries.
    pub heights: Vec<i64>,
    /// Gradient pairs `(df/dx, df/dy)` in micro units, index-aligned
    /// with `heights`.
    pub gradients: Vec<(i64, i64)>,
}

/// Every tabulated gradient component is within the slope bound.
pub open spec fn gradients_bounded(g: Seq<(i64, i64)>) -> bool {
    forall|i: int|
        0 <= i < g.len() ==> {
            &&& -MAX_SLOPE <= (#[trigger] g[i]).0 <= MAX_SLOPE
            &&& -MAX_SLOPE <= g[i].1 <= MAX_SLOPE
        }
}

/// Check the slope bound over a whole gradient table.
fn check_gradients(g: &Vec<(i64, i64)>) -> (ok: bool)
    ensures
        ok == gradients_bounded(g@),
{
    let mut i: usize = 0;
    while i < g.len()
        invariant
            i <= g@.len(),
            forall|t: int|
                0 <= t < i ==> {
                    &&& -MAX_SLOPE <= (#[trigger] g@[t]).0 <= MAX_SLOPE
                    &&& -MAX_SLOPE <= g@[t].1 <= MAX_SLOPE
                },
        decreases g@.len() - i,
    {
        let (gx, gy) = g[i];
        if gx < -MAX_SLOPE || gx > MAX_SLOPE || gy < -MAX_SLOPE || gy > MAX_SLOPE {
            return false;
        }
        i = i + 1;
    }
    true
}

impl SampledSurface {
    /// Build a tabulated surface, refusing tables that do not cover
    /// one whole grid or whose gradients break the slope bound.
    pub fn new(den: u32, heights: Vec<i64>, gradients: Vec<(i64, i64)>) -> (r: Option<
        SampledSurface,
    >)
        ensures
            r is Some <==> {
                &&& 1 <= den <= MAX_SAMPLE_DEN
                &&& heights@.len() == (den + 1) * (den + 1)
                &&& gradients@.len() == (den + 1) * (den + 1)
                &&& gradients_bounded(gradients@)
            },
            r matches Some(s) ==> {
                &&& s.den == den
                &&& s.heights@ == heights@
                &&& s.gradients@ == gradients@
                &&& s.wf()
            },
    {
        if 1 <= den && den <= MAX_SAMPLE_DEN {
            proof {
                assert((den + 1) * (den + 1) <= 65536) by (nonlinear_arith)
                    requires
                        den <= 255,
                ;
            }
            let expected: usize = ((den + 1) * (den + 1)) as usize;
            if heights.len() == expected && gradients.len() == expected && check_gradients(
                &gradients,
            ) {
                Some(SampledSurface { den, heights, gradients })
            } else {
                None
            }
        } else {
            None
        }
    }
}

impl SurfaceFunction for SampledSurface {
    /// The tables cover one whole grid of a supported step count, and
    /// every tabulated slope is within bounds.
    open spec fn wf(&self) -> bool {
        &&& 1 <= self.den <= MAX_SAMPLE_DEN
        &&& self.heights@.len() == (self.den + 1) * (self.den + 1)
        &&& self.gradients@.len() == (self.den + 1) * (self.den + 1)
        &&& gradients_bounded(self.gradients@)
    }

    /// The tabulated value at the sample, or zero for a coordinate
    /// from a different grid.
    open spec fn spec_height(&self, x: Rational, y: Rational) -> i64 {
        if x.den == self.den && y.den == self.den {
            self.heights@[sample_index(x, y, self.den as int)]
        } else {
            0
        }
    }

    open spec fn spec_grad_x(&self, x: Rational, y: Rational) -> i64 {
        if x.den == self.den && y.den == self.den {
            self.gradients@[sample_index(x, y, self.den as int)].0
        } else {
            0
        }
    }

    open spec fn spec_grad_y(&self, x: Rational, y: Rational) -> i64 {
        if x.den == self.den && y.den == self.den {
            self.gradients@[sample_index(x, y, self.den as int)].1
        } else {
            0
        }
    }

    fn height(&self, x: Rational, y: Rational) -> (h: i64) {
        if x.den == self.den && y.den == self.den {
            let idx = table_index(x, y, self.den);
            self.heights[idx]
        } else {
            0
        }
    }

    fn gradient(&self, x: Rational, y: Rational) -> (g: (i64, i64)) {
        if x.den == self.den && y.den == self.den {
            let idx = table_index(x, y, self.den);
            let entry = self.gradients[idx];
            proof {
                assert(gradients_bounded(self.gradients@));
            }
            entry
        } else {
            (0, 0)
        }
    }
}

/// Executable table lookup position, proved to stay inside a
/// `(den + 1)^2` table.
fn table_index(x: Rational, y: Rational, den: u32) -> (idx: usize)
    requires
        x.valid(),
        y.valid(),
        x.den == den,
        y.den == den,
        den <= MAX_SAMPLE_DEN,
    ensures
        idx == sample_index(x, y, den as int),
        idx < (den + 1) * (den + 1),
{
    let col: u32 = ((x.num + den as i32) as u32) / 2;
    let row: u32 = ((den as i32 - y.num) as u32) / 2;
    proof {
        vstd::arithmetic::div_mod::lemma_div_pos_is_pos((x.num + den) as int, 2);
        vstd::arithmetic::div_mod::lemma_div_pos_is_pos((den - y.num) as int, 2);
        vstd::arithmetic::div_mod::lemma_multiply_divide_le((x.num + den) as int, 2, den as int);
        vstd::arithmetic::div_mod::lemma_multiply_divide_le((den - y.num) as int, 2, den as int);
        assert(row * (den + 1) + col < (den + 1) * (den + 1)) by (nonlinear_arith)
            requires
                0 <= col <= den,
                0 <= row <= den,
                den >= 1,
        ;
        assert((den + 1) * (den + 1) <= 65536) by (nonlinear_arith)
            requires
                den <= 255,
        ;
    }
    (row * (den + 1) + col) as usize
}

} // verus!
