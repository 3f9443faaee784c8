use crate::scalar::{abs, greater, gt, is_nan, less, lt, magnitude, rank, INFINITY, ZERO};
use vstd::prelude::*;

verus! {

/// Bit pattern of the number below whose absolute value a ray counts as
/// parallel to a pair of planes: about a tenth of a billionth.
pub const THRESHOLD: u32 = 0x2EDB_E6FF;

/// What the slab test needs to know of one local axis of a box.
///
/// With `e` the axis times the vector from the ray's origin to the box,
/// and `min`, `max` the box's extent along the axis:
/// `f` is the ray's direction times the axis, `t1` is `(e + min) / f`,
/// `t2` is `(e + max) / f`, `lo` is `min - e` and `hi` is `max - e`.
/// All five are IEEE-754 single-precision bit patterns.
#[derive(Clone, Copy, Debug, PartialEq, Eq, Structural)]
pub struct AxisSlab {
    pub f: u32,
    pub t1: u32,
    pub t2: u32,
    pub lo: u32,
    pub hi: u32,
}

impl AxisSlab {
    /// Whether the ray crosses the axis' two planes, rather than running
    /// along them.
    pub open spec fn crosses(self) -> bool {
        gt(magnitude(self.f), THRESHOLD)
    }

    /// The distance at which the ray enters the slab between the planes.
    pub open spec fn near(self) -> u32 {
        if gt(self.t1, self.t2) {
            self.t2
        } else {
            self.t1
        }
    }

    /// The distance at which the ray leaves the slab between the planes.
    pub open spec fn far(self) -> u32 {
        if gt(self.t1, self.t2) {
            self.t1
        } else {
            self.t2
        }
    }

    /// Whether the ray's origin lies outside the slab between the planes.
    pub open spec fn origin_outside(self) -> bool {
        gt(self.lo, ZERO) || lt(self.hi, ZERO)
    }
}

/// The stretch of the ray that is left of the stretch from `t_min` to
/// `t_max` once the axis' slab has been taken into account, or nothing
/// where none of it is left.
///
/// A ray that crosses the planes keeps what lies between its entry and
/// its exit. A ray that runs along the planes keeps everything if its
/// origin lies between them, and nothing otherwise.
pub open spec fn narrowed(t_min: u32, t_max: u32, axis: AxisSlab) -> Option<(u32, u32)> {
    if axis.crosses() {
        let upper = if lt(axis.far(), t_max) {
            axis.far()
        } else {
            t_max
        };
        let lower = if gt(axis.near(), t_min) {
            axis.near()
        } else {
            t_min
        };
        if lt(upper, lower) {
            None
        } else {
            Some((lower, upper))
        }
    } else if axis.origin_outside() {
        None
    } else {
        Some((t_min, t_max))
    }
}

/// The distance at which a ray enters a box, given the box's three
/// axes: the start of what the three slabs leave of the ray from its
/// origin on, or nothing where they leave none of it.
pub open spec fn entry_distance(x: AxisSlab, y: AxisSlab, z: AxisSlab) -> Option<u32> {
    match narrowed(ZERO, INFINITY, x) {
        None => None,
        Some((x_min, x_max)) => match narrowed(x_min, x_max, y) {
            None => None,
            Some((y_min, y_max)) => match narrowed(y_min, y_max, z) {
                None => None,
                Some((z_min, z_max)) => Some(z_min),
            },
        },
    }
}

/// Takes one axis into account in the slab test.
pub fn narrow(t_min: u32, t_max: u32, axis: &AxisSlab) -> (left: Option<(u32, u32)>)
    ensures
        left == narrowed(t_min, t_max, *axis),
{
    let mut t_min = t_min;
    let mut t_max = t_max;
    if greater(abs(axis.f), THRESHOLD) {
        let mut t1 = axis.t1;
        let mut t2 = axis.t2;
        if greater(t1, t2) {
            let w = t1;
            t1 = t2;
            t2 = w;
        }
        if less(t2, t_max) {
            t_max = t2;
        }
        if greater(t1, t_min) {
            t_min = t1;
        }
        if less(t_max, t_min) {
            return None;
        }
    } else {
        if greater(axis.lo, ZERO) || less(axis.hi, ZERO) {
            return None;
        }
    }
    Some((t_min, t_max))
}

/// Tests a ray against an oriented box by the slab method and returns
/// the distance at which the ray enters the box, or nothing where it
/// misses. `x`, `y` and `z` describe the box's three local axes.
pub fn oriented_bounding_box_with_ray(x: &AxisSlab, y: &AxisSlab, z: &AxisSlab) -> (hit: Option<u32>)
    ensures
        hit == entry_distance(*x, *y, *z),
{
    let (t_min, t_max) = match narrow(ZERO, INFINITY, x) {
        Some(left) => left,
        None => {
            return None;
        },
    };
    let (t_min, t_max) = match narrow(t_min, t_max, y) {
        Some(left) => left,
        None => {
            return None;
        },
    };
    match narrow(t_min, t_max, z) {
        Some((t_min, _)) => Some(t_min),
        None => None,
    }
}

/// Whether a ray meets a sphere, given `h`: with `delta` the vector
/// from the sphere's centre to the ray's origin, `b` the ray's direction
/// times `delta` and `c` the square of `delta` less the square of the
/// radius, `h` is `b * b - c`. The ray meets the sphere unless `h` is
/// negative.
pub fn sphere_with_ray_collision(h: u32) -> (hit: bool)
    ensures
        hit == !lt(h, ZERO),
{
    if less(h, ZERO) {
        return false;
    }
    true
}

/// Narrowing never moves the start of the stretch below zero, and never
/// makes it something that is no number.
proof fn lemma_narrowed_start(t_min: u32, t_max: u32, axis: AxisSlab)
    requires
        !is_nan(t_min),
        rank(t_min) >= 0,
    ensures
        narrowed(t_min, t_max, axis) matches Some(left) ==> !is_nan(left.0) && rank(left.0) >= rank(
            t_min,
        ),
{
}

/// A ray enters a box at a distance that is a number and not negative.
pub proof fn lemma_entry_not_negative(x: AxisSlab, y: AxisSlab, z: AxisSlab)
    ensures
        entry_distance(x, y, z) matches Some(t) ==> !is_nan(t) && !lt(t, ZERO),
{
    lemma_narrowed_start(ZERO, INFINITY, x);
    if let Some((x_min, x_max)) = narrowed(ZERO, INFINITY, x) {
        lemma_narrowed_start(x_min, x_max, y);
        if let Some((y_min, y_max)) = narrowed(x_min, x_max, y) {
            lemma_narrowed_start(y_min, y_max, z);
        }
    }
}

/// A ray that runs along one pair of planes, with its origin outside
/// the slab between them, misses the box whatever the other axes say.
pub proof fn lemma_outside_parallel_slab_misses(x: AxisSlab, y: AxisSlab, z: AxisSlab)
    requires
        (!x.crosses() && x.origin_outside()) || (!y.crosses() && y.origin_outside()) || (
        !z.crosses() && z.origin_outside()),
    ensures
        entry_distance(x, y, z) is None,
{
}

} // verus!
