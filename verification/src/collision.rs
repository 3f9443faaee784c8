pub mod collision_fns_3d;
pub mod structs_3d;

use crate::scalar::{gt, greater, less, lt, rank};
use vstd::prelude::*;

verus! {

/// An axis-aligned box on the screen that can be picked with the mouse.
/// Its bounds are IEEE-754 single-precision bit patterns.
#[derive(Clone, Copy, Debug, PartialEq, Eq)]
pub struct Box2D {
    x_max: u32,
    x_min: u32,
    y_max: u32,
    y_min: u32,
    enabled: bool,
}

impl Box2D {
    /// The largest x of the box.
    pub closed spec fn x_max(self) -> u32 {
        self.x_max
    }

    /// The least x of the box.
    pub closed spec fn x_min(self) -> u32 {
        self.x_min
    }

    /// The largest y of the box.
    pub closed spec fn y_max(self) -> u32 {
        self.y_max
    }

    /// The least y of the box.
    pub closed spec fn y_min(self) -> u32 {
        self.y_min
    }

    /// Whether the collider reports collisions at all.
    pub closed spec fn enabled(self) -> bool {
        self.enabled
    }

    /// Whether the point `(x, y)` lies strictly inside the bounds.
    pub open spec fn contains(self, x: u32, y: u32) -> bool {
        lt(x, self.x_max()) && gt(x, self.x_min()) && lt(y, self.y_max()) && gt(y, self.y_min())
    }

    /// The enabled box spanned by the corners `corner` and `opposite`, in any order.
    pub fn new(corner: [u32; 2], opposite: [u32; 2]) -> (collider: Box2D)
        ensures
            collider.enabled(),
            collider.x_max() == if gt(corner[0], opposite[0]) {
                corner[0]
            } else {
                opposite[0]
            },
            collider.x_min() == if lt(corner[0], opposite[0]) {
                corner[0]
            } else {
                opposite[0]
            },
            collider.y_max() == if gt(corner[1], opposite[1]) {
                corner[1]
            } else {
                opposite[1]
            },
            collider.y_min() == if lt(corner[1], opposite[1]) {
                corner[1]
            } else {
                opposite[1]
            },
    {
        Box2D {
            x_max: if greater(corner[0], opposite[0]) {
                corner[0]
            } else {
                opposite[0]
            },
            x_min: if less(corner[0], opposite[0]) {
                corner[0]
            } else {
                opposite[0]
            },
            y_max: if greater(corner[1], opposite[1]) {
                corner[1]
            } else {
                opposite[1]
            },
            y_min: if less(corner[1], opposite[1]) {
                corner[1]
            } else {
                opposite[1]
            },
            enabled: true,
        }
    }

    /// The bounds as `(x_min, x_max, y_min, y_max)`.
    pub fn bounds(&self) -> (bounds: (u32, u32, u32, u32))
        ensures
            bounds == (self.x_min(), self.x_max(), self.y_min(), self.y_max()),
    {
        (self.x_min, self.x_max, self.y_min, self.y_max)
    }

    /// Whether the collider reports collisions at all.
    pub fn is_enabled(&self) -> (enabled: bool)
        ensures
            enabled == self.enabled(),
    {
        self.enabled
    }

    /// Enables or disables the box; its bounds stay.
    pub fn set_enabled(&mut self, enabled: bool)
        ensures
            final(self).enabled() == enabled,
            final(self).x_max() == old(self).x_max(),
            final(self).x_min() == old(self).x_min(),
            final(self).y_max() == old(self).y_max(),
            final(self).y_min() == old(self).y_min(),
    {
        self.enabled = enabled;
    }

    /// Whether the box is picked at the screen position `(x, y)`: it is
    /// enabled and the position lies strictly inside its bounds.
    pub fn check_collision(&self, x: u32, y: u32) -> (collides: bool)
        ensures
            collides == (self.enabled() && self.contains(x, y)),
            !self.enabled() ==> !collides,
    {
        if self.enabled {
            if less(x, self.x_max) && greater(x, self.x_min) && less(y, self.y_max) && greater(
                y,
                self.y_min,
            ) {
                return true;
            }
        }
        false
    }
}

/// The bounds of a box are not part of it: a position whose x is the
/// box's largest or least x, or whose y is its largest or least y, is
/// not inside.
pub proof fn lemma_bounds_excluded(collider: Box2D, x: u32, y: u32)
    requires
        rank(x) == rank(collider.x_max()) || rank(x) == rank(collider.x_min()) || rank(y) == rank(
            collider.y_max(),
        ) || rank(y) == rank(collider.y_min()),
    ensures
        !collider.contains(x, y),
{
}

/// A circle on the screen that can be picked with the mouse. Centre and
/// radius are IEEE-754 single-precision bit patterns.
#[derive(Clone, Copy, Debug, PartialEq, Eq)]
pub struct Circle {
    center_x: u32,
    center_y: u32,
    radius: u32,
    enabled: bool,
}

impl Circle {
    /// The centre of the circle.
    pub closed spec fn center(self) -> (u32, u32) {
        (self.center_x, self.center_y)
    }

    /// The radius of the circle.
    pub closed spec fn radius(self) -> u32 {
        self.radius
    }

    /// Whether the collider reports collisions at all.
    pub closed spec fn enabled(self) -> bool {
        self.enabled
    }

    /// The circle of the given radius around `center`.
    pub fn new(center: [u32; 2], radius: u32, enabled: bool) -> (collider: Circle)
        ensures
            collider.center() == (center[0], center[1]),
            collider.radius() == radius,
            collider.enabled() == enabled,
    {
        Circle { center_x: center[0], center_y: center[1], radius, enabled }
    }

    /// The centre and the radius as `(x, y, radius)`.
    pub fn shape(&self) -> (shape: (u32, u32, u32))
        ensures
            (shape.0, shape.1) == self.center(),
            shape.2 == self.radius(),
    {
        (self.center_x, self.center_y, self.radius)
    }

    /// Whether the collider reports collisions at all.
    pub fn is_enabled(&self) -> (enabled: bool)
        ensures
            enabled == self.enabled(),
    {
        self.enabled
    }

    /// Whether the circle is picked by a position at distance `dist`
    /// from its centre: it is enabled and the distance is less than the
    /// radius.
    pub fn check_collision(&self, dist: u32) -> (collides: bool)
        ensures
            collides == (self.enabled() && lt(dist, self.radius())),
            !self.enabled() ==> !collides,
    {
        if self.enabled && less(dist, self.radius) {
            return true;
        }
        false
    }
}

} // verus!
