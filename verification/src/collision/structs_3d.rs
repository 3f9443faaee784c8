use crate::instance::{Instance, Matrix};
use vstd::prelude::*;

verus! {

/// A sphere; centre and radius are IEEE-754 single-precision bit patterns.
#[derive(Clone, Copy, Debug, PartialEq, Eq)]
pub struct Sphere {
    pub center: [u32; 3],
    pub radius: u32,
}

/// An oriented bounding box, given by its extent before any transform.
#[derive(Clone, Copy, Debug, PartialEq, Eq)]
pub struct OBB {
    pub aabb_min: [u32; 3],
    pub aabb_max: [u32; 3],
}

/// A ray; the direction is of unit length.
#[derive(Clone, Copy, Debug, PartialEq, Eq)]
pub struct Ray {
    pub origin: [u32; 3],
    pub direction: [u32; 3],
}

/// A shape that can take part in a collision query.
#[derive(Clone, Copy, Debug, PartialEq, Eq)]
pub enum Collider3D {
    OBB(OBB),
    Sphere(Sphere),
    Ray(Ray),
}

/// The answer to a collision query.
#[derive(Clone, Copy, Debug, PartialEq, Eq, Structural)]
pub enum ColliderResult {
    /// No test exists for this pair of shapes.
    NotImplemented,
    NoCollision,
    /// The shapes collide. Where the test finds it, this is the distance
    /// at which the ray enters the other shape.
    Collision(Option<u32>),
}

/// The intersection test that decides a collision query, with the
/// numbers it is to be run on.
#[derive(Clone, Copy, Debug, PartialEq, Eq)]
pub enum RayQuery {
    /// No test exists for this pair of shapes.
    NotImplemented,
    /// The shape's instance is disabled: there is no collision, whatever
    /// the geometry.
    Disabled,
    /// Test the ray against the box placed by the model matrix; without
    /// one, the box is where an instance at rest puts it.
    ObbWithRay { ray: Ray, obb: OBB, model: Option<Matrix> },
    /// Test the ray against the sphere, its centre moved by `offset`
    /// where there is one.
    SphereWithRay { ray: Ray, sphere: Sphere, offset: Option<[u32; 3]> },
}

impl ColliderResult {
    /// The answer that the outcome of a test of a ray against a box
    /// stands for: a collision at the entry distance, or none.
    pub fn from_distance(distance: Option<u32>) -> (result: ColliderResult)
        ensures
            result == match distance {
                Some(dist) => ColliderResult::Collision(Some(dist)),
                None => ColliderResult::NoCollision,
            },
    {
        match distance {
            Some(dist) => ColliderResult::Collision(Some(dist)),
            None => ColliderResult::NoCollision,
        }
    }

    /// The answer that the outcome of a test of a ray against a sphere
    /// stands for: a collision without a distance, or none.
    pub fn from_hit(hit: bool) -> (result: ColliderResult)
        ensures
            result == if hit {
                ColliderResult::Collision(None)
            } else {
                ColliderResult::NoCollision
            },
    {
        if hit {
            ColliderResult::Collision(None)
        } else {
            ColliderResult::NoCollision
        }
    }
}

impl RayQuery {
    /// The answer to the query where no test has to be run for it: none
    /// is implemented, or the instance is disabled.
    pub open spec fn settled(self) -> Option<ColliderResult> {
        match self {
            RayQuery::NotImplemented => Some(ColliderResult::NotImplemented),
            RayQuery::Disabled => Some(ColliderResult::NoCollision),
            _ => None,
        }
    }

    /// The answer to the query, if it needs no test.
    pub fn answer(&self) -> (result: Option<ColliderResult>)
        ensures
            result == self.settled(),
    {
        match self {
            RayQuery::NotImplemented => Some(ColliderResult::NotImplemented),
            RayQuery::Disabled => Some(ColliderResult::NoCollision),
            _ => None,
        }
    }
}

impl OBB {
    /// The box between the corners `aabb_min` and `aabb_max`.
    pub fn new(aabb_min: [u32; 3], aabb_max: [u32; 3]) -> (obb: OBB)
        ensures
            obb == (OBB { aabb_min, aabb_max }),
    {
        OBB { aabb_min, aabb_max }
    }

    /// The test that decides whether `ray` meets this box as `instance`
    /// places it. `model` is the instance's model matrix.
    ///
    /// A disabled instance never collides, so no test is to be run for it.
    pub fn check_collision_with_ray(&self, ray: Ray, instance: &Instance, model: Matrix) -> (query:
        RayQuery)
        ensures
            query == if instance.enabled {
                RayQuery::ObbWithRay { ray, obb: *self, model: Some(model) }
            } else {
                RayQuery::Disabled
            },
    {
        match instance.to_raw(model) {
            Some(raw) => RayQuery::ObbWithRay { ray, obb: *self, model: Some(raw.model) },
            None => RayQuery::Disabled,
        }
    }
}

impl Collider3D {
    /// The ray and the other shape of a pair, where exactly one of the
    /// two is a ray.
    pub open spec fn ray_and_target(self, other: Collider3D) -> Option<(Ray, Collider3D)> {
        match (self, other) {
            (Collider3D::Ray(_), Collider3D::Ray(_)) => None,
            (Collider3D::Ray(ray), target) => Some((ray, target)),
            (target, Collider3D::Ray(ray)) => Some((ray, target)),
            _ => None,
        }
    }

    /// The test that decides whether this shape and `other` collide.
    ///
    /// `parent` is the instance the shapes are attached to, with its model
    /// matrix. Only a ray against a box or a sphere can be tested. The box
    /// is placed by the parent's model matrix, the sphere moved by the
    /// parent's position. A disabled parent never collides.
    pub open spec fn query(self, parent: Option<(Instance, Matrix)>, other: Collider3D) -> RayQuery {
        match self.ray_and_target(other) {
            None => RayQuery::NotImplemented,
            Some((ray, target)) => match parent {
                Some((instance, model)) => if !instance.enabled {
                    RayQuery::Disabled
                } else {
                    match target {
                        Collider3D::OBB(obb) => RayQuery::ObbWithRay { ray, obb, model: Some(model) },
                        Collider3D::Sphere(sphere) => RayQuery::SphereWithRay {
                            ray,
                            sphere,
                            offset: Some(instance.position),
                        },
                        Collider3D::Ray(_) => RayQuery::NotImplemented,
                    }
                },
                None => match target {
                    Collider3D::OBB(obb) => RayQuery::ObbWithRay { ray, obb, model: None },
                    Collider3D::Sphere(sphere) => RayQuery::SphereWithRay {
                        ray,
                        sphere,
                        offset: None,
                    },
                    Collider3D::Ray(_) => RayQuery::NotImplemented,
                },
            },
        }
    }

    /// Decides which test settles whether this shape and `other`
    /// collide, and on which numbers it is to be run.
    pub fn check_collision(&self, parent: Option<(&Instance, Matrix)>, other: &Collider3D) -> (query:
        RayQuery)
        ensures
            query == self.query(
                match parent {
                    Some((instance, model)) => Some((*instance, model)),
                    None => None,
                },
                *other,
            ),
    {
        let (ray, target) = match (self, other) {
            (Collider3D::Ray(_), Collider3D::Ray(_)) => {
                return RayQuery::NotImplemented;
            },
            (Collider3D::Ray(ray), target) => (*ray, *target),
            (target, Collider3D::Ray(ray)) => (*ray, *target),
            _ => {
                return RayQuery::NotImplemented;
            },
        };
        match parent {
            Some((instance, model)) => {
                if !instance.enabled {
                    return RayQuery::Disabled;
                }
                match target {
                    Collider3D::OBB(obb) => obb.check_collision_with_ray(ray, instance, model),
                    Collider3D::Sphere(sphere) => RayQuery::SphereWithRay {
                        ray,
                        sphere,
                        offset: Some(instance.pos()),
                    },
                    Collider3D::Ray(_) => RayQuery::NotImplemented,
                }
            },
            None => match target {
                Collider3D::OBB(obb) => RayQuery::ObbWithRay { ray, obb, model: None },
                Collider3D::Sphere(sphere) => RayQuery::SphereWithRay { ray, sphere, offset: None },
                Collider3D::Ray(_) => RayQuery::NotImplemented,
            },
        }
    }
}

/// A disabled instance never collides: whatever the two shapes are and
/// wherever they lie, the query for a disabled parent is answered
/// without a test, and the answer is not a collision.
pub proof fn lemma_disabled_never_collides(
    collider: Collider3D,
    other: Collider3D,
    instance: Instance,
    model: Matrix,
)
    requires
        !instance.enabled,
    ensures
        collider.query(Some((instance, model)), other).settled() == Some(
            ColliderResult::NoCollision,
        ) || collider.query(Some((instance, model)), other).settled() == Some(
            ColliderResult::NotImplemented,
        ),
{
}

} // verus!
