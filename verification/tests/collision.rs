use glam::{Mat4, Quat, Vec3};
use vertix::collision::collision_fns_3d::{
    narrow, oriented_bounding_box_with_ray, sphere_with_ray_collision, AxisSlab, THRESHOLD,
};
use vertix::collision::structs_3d::{Collider3D, ColliderResult, RayQuery, Sphere, OBB, Ray};
use vertix::collision::{Box2D, Circle};
use vertix::instance::{Instance, Matrix};
use vertix::scalar::{abs, greater, less, nan, INFINITY, SIGN, ZERO};

fn bits(x: f32) -> u32 {
    x.to_bits()
}

fn bits2(x: f32, y: f32) -> [u32; 2] {
    [x.to_bits(), y.to_bits()]
}

fn bits3(v: Vec3) -> [u32; 3] {
    [v.x.to_bits(), v.y.to_bits(), v.z.to_bits()]
}

fn matrix_bits(m: Mat4) -> Matrix {
    let cols = m.to_cols_array_2d();
    let mut model = [[0u32; 4]; 4];
    for c in 0..4 {
        for r in 0..4 {
            model[c][r] = cols[c][r].to_bits();
        }
    }
    model
}

fn column(model: &Matrix, c: usize) -> Vec3 {
    Vec3::new(
        f32::from_bits(model[c][0]),
        f32::from_bits(model[c][1]),
        f32::from_bits(model[c][2]),
    )
}

fn vec3(v: [u32; 3]) -> Vec3 {
    Vec3::new(f32::from_bits(v[0]), f32::from_bits(v[1]), f32::from_bits(v[2]))
}

fn axes(ray: &Ray, obb: &OBB, model: &Matrix) -> [AxisSlab; 3] {
    let delta = column(model, 3) - vec3(ray.origin);
    let direction = vec3(ray.direction);
    let min = vec3(obb.aabb_min).to_array();
    let max = vec3(obb.aabb_max).to_array();
    let mut slabs = [AxisSlab { f: 0, t1: 0, t2: 0, lo: 0, hi: 0 }; 3];
    for i in 0..3 {
        let axis = column(model, i);
        let e = axis.dot(delta);
        let f = direction.dot(axis);
        slabs[i] = AxisSlab {
            f: bits(f),
            t1: bits((e + min[i]) / f),
            t2: bits((e + max[i]) / f),
            lo: bits(-e + min[i]),
            hi: bits(-e + max[i]),
        };
    }
    slabs
}

fn box_hit(ray: &Ray, obb: &OBB, model: &Matrix) -> Option<f32> {
    let [x, y, z] = axes(ray, obb, model);
    oriented_bounding_box_with_ray(&x, &y, &z).map(f32::from_bits)
}

fn sphere_h(ray: &Ray, sphere: &Sphere) -> u32 {
    let delta = vec3(ray.origin) - vec3(sphere.center);
    let direction = vec3(ray.direction);
    let b = delta.dot(direction);
    let c = delta.dot(delta) - f32::from_bits(sphere.radius) * f32::from_bits(sphere.radius);
    bits(b * b - c)
}

fn ray(origin: Vec3, direction: Vec3) -> Ray {
    Ray { origin: bits3(origin), direction: bits3(direction) }
}

fn unit_box() -> OBB {
    OBB::new(bits3(Vec3::splat(-1.0)), bits3(Vec3::splat(1.0)))
}

fn identity() -> Matrix {
    matrix_bits(Mat4::IDENTITY)
}

fn samples() -> Vec<f32> {
    vec![
        0.0,
        -0.0,
        1.0,
        -1.0,
        0.5,
        -0.5,
        1.0e-10,
        -1.0e-10,
        f32::MIN_POSITIVE,
        -f32::MIN_POSITIVE,
        f32::from_bits(1),
        f32::from_bits(SIGN | 1),
        f32::MAX,
        f32::MIN,
        f32::INFINITY,
        f32::NEG_INFINITY,
        f32::NAN,
        -f32::NAN,
        f32::from_bits(0x7F80_0001),
        f32::from_bits(0xFFFF_FFFF),
        3.5,
        10000.0,
        -123.25,
    ]
}

#[test]
fn patterns_are_ordered_like_the_numbers() {
    for a in samples() {
        for b in samples() {
            assert_eq!(less(a.to_bits(), b.to_bits()), a < b, "{a} < {b}");
            assert_eq!(greater(a.to_bits(), b.to_bits()), a > b, "{a} > {b}");
        }
    }
}

#[test]
fn absolute_value_clears_the_sign() {
    for a in samples() {
        assert_eq!(abs(a.to_bits()), a.abs().to_bits(), "{a}");
        assert_eq!(nan(a.to_bits()), a.is_nan(), "{a}");
    }
    assert_eq!(INFINITY, f32::INFINITY.to_bits());
    assert_eq!(ZERO, 0.0f32.to_bits());
    assert_eq!(SIGN, (-0.0f32).to_bits());
    assert_eq!(THRESHOLD, 0.0000000001f32.to_bits());
}

#[test]
fn box_is_spanned_by_its_corners_in_any_order() {
    let a = Box2D::new(bits2(-0.5, 0.25), bits2(0.5, -0.25));
    let b = Box2D::new(bits2(0.5, -0.25), bits2(-0.5, 0.25));
    let expected = (bits(-0.5), bits(0.5), bits(-0.25), bits(0.25));
    assert_eq!(a.bounds(), expected);
    assert_eq!(b.bounds(), expected);
    assert!(a.is_enabled());
}

#[test]
fn box_contains_what_is_strictly_inside() {
    let collider = Box2D::new(bits2(-0.5, -0.5), bits2(0.5, 0.5));
    assert!(collider.check_collision(bits(0.0), bits(0.0)));
    assert!(collider.check_collision(bits(0.49), bits(-0.49)));
    assert!(!collider.check_collision(bits(0.7), bits(0.0)));
    assert!(!collider.check_collision(bits(0.0), bits(-0.7)));
    assert!(!collider.check_collision(bits(f32::NAN), bits(0.0)));
}

#[test]
fn box_bounds_do_not_collide() {
    let collider = Box2D::new(bits2(-0.5, -0.5), bits2(0.5, 0.5));
    let just_inside = f32::from_bits(0.5f32.to_bits() - 1);
    assert!(just_inside < 0.5);
    assert!(collider.check_collision(bits(just_inside), bits(0.0)));
    assert!(!collider.check_collision(bits(0.5), bits(0.0)));
    assert!(collider.check_collision(bits(0.0), bits(just_inside)));
    assert!(!collider.check_collision(bits(0.0), bits(0.5)));
    assert!(collider.check_collision(bits(-just_inside), bits(-just_inside)));
    assert!(!collider.check_collision(bits(-0.5), bits(0.0)));
    assert!(!collider.check_collision(bits(0.0), bits(-0.5)));
    assert!(!collider.check_collision(bits(0.5), bits(0.5)));
}

#[test]
fn box_picks_the_corrected_screen_position() {
    let collider = Box2D::new(bits2(-0.5, -0.5), bits2(0.5, 0.5));
    let mouse = (0.2f32, 0.6f32);
    let position = (0.1f32, 0.2f32);
    let aspect_ratio = 2.0f32;
    let x = mouse.0 + position.0;
    let y = (mouse.1 + position.1) / aspect_ratio;
    assert!(collider.check_collision(bits(x), bits(y)));
    let y_uncorrected = mouse.1 + position.1;
    assert!(!collider.check_collision(bits(x), bits(y_uncorrected)));
}

#[test]
fn disabled_box_never_collides() {
    let mut collider = Box2D::new(bits2(-0.5, -0.5), bits2(0.5, 0.5));
    assert!(collider.check_collision(bits(0.0), bits(0.0)));
    collider.set_enabled(false);
    assert!(!collider.is_enabled());
    assert!(!collider.check_collision(bits(0.0), bits(0.0)));
    assert_eq!(collider.bounds(), (bits(-0.5), bits(0.5), bits(-0.5), bits(0.5)));
    collider.set_enabled(true);
    assert!(collider.check_collision(bits(0.0), bits(0.0)));
}

#[test]
fn circle_contains_what_is_closer_than_its_radius() {
    let circle = Circle::new(bits2(1.0, 1.0), bits(2.0), true);
    assert_eq!(circle.shape(), (bits(1.0), bits(1.0), bits(2.0)));
    let dist = |x: f32, y: f32| ((x - 1.0f32).powi(2) + (y - 1.0f32).powi(2)).sqrt();
    assert!(circle.check_collision(bits(dist(1.0, 1.0))));
    assert!(circle.check_collision(bits(dist(2.0, 2.0))));
    assert!(!circle.check_collision(bits(dist(3.0, 1.0))));
    assert!(!circle.check_collision(bits(dist(4.0, 5.0))));
}

#[test]
fn disabled_circle_never_collides() {
    let circle = Circle::new(bits2(1.0, 1.0), bits(2.0), false);
    assert!(!circle.is_enabled());
    assert!(!circle.check_collision(bits(0.0)));
    assert!(!circle.check_collision(bits(1.0)));
}

#[test]
fn ray_through_the_center_enters_at_the_near_face() {
    let through = ray(Vec3::new(-5.0, 0.0, 0.0), Vec3::X);
    assert_eq!(box_hit(&through, &unit_box(), &identity()), Some(4.0));
}

#[test]
fn ray_offset_beyond_the_half_extent_misses() {
    let above = ray(Vec3::new(-5.0, 2.0, 0.0), Vec3::X);
    assert_eq!(box_hit(&above, &unit_box(), &identity()), None);
    let beside = ray(Vec3::new(-5.0, 0.0, 2.0), Vec3::X);
    assert_eq!(box_hit(&beside, &unit_box(), &identity()), None);
}

#[test]
fn ray_meets_a_moved_and_turned_box() {
    let model = matrix_bits(Mat4::from_rotation_translation(
        Quat::from_rotation_z(std::f32::consts::FRAC_PI_2),
        Vec3::new(10.0, 0.0, 0.0),
    ));
    let flat = OBB::new(bits3(Vec3::new(-1.0, -3.0, -1.0)), bits3(Vec3::new(1.0, 3.0, 1.0)));
    let along = ray(Vec3::ZERO, Vec3::X);
    let hit = box_hit(&along, &flat, &model).unwrap();
    assert!((hit - 7.0).abs() < 1.0e-4, "{hit}");
    let high = ray(Vec3::new(0.0, 2.0, 0.0), Vec3::X);
    assert_eq!(box_hit(&high, &flat, &model), None);
}

#[test]
fn ray_starting_inside_enters_at_zero() {
    let inside = ray(Vec3::ZERO, Vec3::X);
    assert_eq!(box_hit(&inside, &unit_box(), &identity()), Some(0.0));
}

#[test]
fn ray_pointing_away_misses() {
    let away = ray(Vec3::new(-5.0, 0.0, 0.0), Vec3::NEG_X);
    assert_eq!(box_hit(&away, &unit_box(), &identity()), None);
}

#[test]
fn narrowing_keeps_what_lies_between_entry_and_exit() {
    let crossing = AxisSlab { f: bits(1.0), t1: bits(6.0), t2: bits(4.0), lo: 0, hi: 0 };
    assert_eq!(narrow(ZERO, INFINITY, &crossing), Some((bits(4.0), bits(6.0))));
    assert_eq!(narrow(bits(5.0), bits(5.5), &crossing), Some((bits(5.0), bits(5.5))));
    assert_eq!(narrow(bits(6.0), bits(9.0), &crossing), Some((bits(6.0), bits(6.0))));
    assert_eq!(narrow(bits(7.0), bits(9.0), &crossing), None);
    assert_eq!(narrow(bits(1.0), bits(3.0), &crossing), None);
}

#[test]
fn narrowing_along_the_planes_looks_at_the_origin() {
    let between = AxisSlab { f: bits(0.0), t1: bits(7.0), t2: bits(8.0), lo: bits(-1.0), hi: bits(1.0) };
    assert_eq!(narrow(bits(2.0), bits(3.0), &between), Some((bits(2.0), bits(3.0))));
    let on_the_threshold = AxisSlab { f: THRESHOLD, ..between };
    assert_eq!(narrow(bits(2.0), bits(3.0), &on_the_threshold), Some((bits(2.0), bits(3.0))));
    let above = AxisSlab { lo: bits(-3.0), hi: bits(-1.0), ..between };
    assert_eq!(narrow(bits(2.0), bits(3.0), &above), None);
    let below = AxisSlab { lo: bits(1.0), hi: bits(3.0), ..between };
    assert_eq!(narrow(bits(2.0), bits(3.0), &below), None);
    let barely_crossing = AxisSlab { f: THRESHOLD + 1, ..between };
    assert_eq!(narrow(bits(2.0), bits(9.0), &barely_crossing), Some((bits(7.0), bits(8.0))));
    let backwards = AxisSlab { f: bits(-1.0), ..between };
    assert_eq!(narrow(bits(2.0), bits(9.0), &backwards), Some((bits(7.0), bits(8.0))));
}

#[test]
fn ray_through_the_center_meets_the_sphere() {
    for radius in [0.001f32, 1.0, 250.0] {
        let sphere = Sphere { center: bits3(Vec3::new(1.0, 2.0, 3.0)), radius: bits(radius) };
        let through = ray(Vec3::new(-4.0, 2.0, 3.0), Vec3::X);
        assert!(sphere_with_ray_collision(sphere_h(&through, &sphere)), "{radius}");
    }
}

#[test]
fn ray_passing_beyond_the_radius_misses_the_sphere() {
    let sphere = Sphere { center: bits3(Vec3::ZERO), radius: bits(1.0) };
    let above = ray(Vec3::new(0.0, 5.0, 0.0), Vec3::X);
    assert!(!sphere_with_ray_collision(sphere_h(&above, &sphere)));
}

#[test]
fn sphere_is_met_exactly_when_h_is_not_negative() {
    assert!(sphere_with_ray_collision(bits(0.0)));
    assert!(sphere_with_ray_collision(bits(-0.0)));
    assert!(sphere_with_ray_collision(bits(3.0)));
    assert!(!sphere_with_ray_collision(bits(-1.0e-20)));
    assert!(!sphere_with_ray_collision(bits(-24.0)));
    let grazing = ray(Vec3::new(-3.0, 1.0, 0.0), Vec3::X);
    let sphere = Sphere { center: bits3(Vec3::ZERO), radius: bits(1.0) };
    assert_eq!(f32::from_bits(sphere_h(&grazing, &sphere)), 0.0);
    assert!(sphere_with_ray_collision(sphere_h(&grazing, &sphere)));
}

#[test]
fn only_a_ray_against_a_box_or_sphere_is_tested() {
    let a_box = Collider3D::OBB(unit_box());
    let a_sphere = Collider3D::Sphere(Sphere { center: [0; 3], radius: bits(1.0) });
    let a_ray = Collider3D::Ray(ray(Vec3::new(-5.0, 0.0, 0.0), Vec3::X));
    for (left, right) in [
        (a_box, a_box),
        (a_box, a_sphere),
        (a_sphere, a_box),
        (a_sphere, a_sphere),
        (a_ray, a_ray),
    ] {
        let query = left.check_collision(None, &right);
        assert_eq!(query, RayQuery::NotImplemented);
        assert_eq!(query.answer(), Some(ColliderResult::NotImplemented));
    }
}

#[test]
fn query_names_the_test_and_its_numbers() {
    let the_ray = ray(Vec3::new(-5.0, 0.0, 0.0), Vec3::X);
    let sphere = Sphere { center: bits3(Vec3::new(0.0, 1.0, 0.0)), radius: bits(1.0) };
    let instance = Instance { position: bits3(Vec3::new(2.0, 0.0, 0.0)), ..Instance::default() };
    let model = matrix_bits(Mat4::from_translation(Vec3::new(2.0, 0.0, 0.0)));
    let expected_box = RayQuery::ObbWithRay { ray: the_ray, obb: unit_box(), model: Some(model) };
    let parent = Some((&instance, model));
    assert_eq!(
        Collider3D::OBB(unit_box()).check_collision(parent, &Collider3D::Ray(the_ray)),
        expected_box
    );
    assert_eq!(
        Collider3D::Ray(the_ray).check_collision(parent, &Collider3D::OBB(unit_box())),
        expected_box
    );
    assert_eq!(expected_box.answer(), None);
    let expected_sphere =
        RayQuery::SphereWithRay { ray: the_ray, sphere, offset: Some(instance.position) };
    assert_eq!(
        Collider3D::Sphere(sphere).check_collision(parent, &Collider3D::Ray(the_ray)),
        expected_sphere
    );
    assert_eq!(
        Collider3D::Ray(the_ray).check_collision(parent, &Collider3D::Sphere(sphere)),
        expected_sphere
    );
    assert_eq!(
        Collider3D::Ray(the_ray).check_collision(None, &Collider3D::OBB(unit_box())),
        RayQuery::ObbWithRay { ray: the_ray, obb: unit_box(), model: None }
    );
    assert_eq!(
        Collider3D::Sphere(sphere).check_collision(None, &Collider3D::Ray(the_ray)),
        RayQuery::SphereWithRay { ray: the_ray, sphere, offset: None }
    );
}

#[test]
fn disabled_instance_never_collides() {
    let the_ray = ray(Vec3::new(-5.0, 0.0, 0.0), Vec3::X);
    let instance = Instance { enabled: false, ..Instance::default() };
    let parent = Some((&instance, identity()));
    assert_eq!(box_hit(&the_ray, &unit_box(), &identity()), Some(4.0));
    assert_eq!(
        unit_box().check_collision_with_ray(the_ray, &instance, identity()),
        RayQuery::Disabled
    );
    let sphere = Sphere { center: [0; 3], radius: bits(1.0) };
    for target in [Collider3D::OBB(unit_box()), Collider3D::Sphere(sphere)] {
        let query = target.check_collision(parent, &Collider3D::Ray(the_ray));
        assert_eq!(query, RayQuery::Disabled);
        assert_eq!(query.answer(), Some(ColliderResult::NoCollision));
        let reversed = Collider3D::Ray(the_ray).check_collision(parent, &target);
        assert_eq!(reversed.answer(), Some(ColliderResult::NoCollision));
    }
    let enabled = Instance::default();
    assert_eq!(
        unit_box().check_collision_with_ray(the_ray, &enabled, identity()),
        RayQuery::ObbWithRay { ray: the_ray, obb: unit_box(), model: Some(identity()) }
    );
}

#[test]
fn test_outcomes_become_results() {
    assert_eq!(
        ColliderResult::from_distance(Some(bits(4.0))),
        ColliderResult::Collision(Some(bits(4.0)))
    );
    assert_eq!(ColliderResult::from_distance(None), ColliderResult::NoCollision);
    assert_eq!(ColliderResult::from_hit(true), ColliderResult::Collision(None));
    assert_eq!(ColliderResult::from_hit(false), ColliderResult::NoCollision);
}
