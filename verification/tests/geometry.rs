use ground_cursor::geometry::{intersect_plane, point_at, NoRayError, Ray, Vec3, UNIT};

fn units(x: i32, y: i32, z: i32) -> Vec3 {
    Vec3::new(x * UNIT, y * UNIT, z * UNIT)
}

#[test]
fn unit_is_a_thousand_steps() {
    assert_eq!(UNIT, 1000);
    assert_eq!(units(1, -2, 3), Vec3 { x: 1000, y: -2000, z: 3000 });
}

#[test]
fn vec3_new_keeps_coordinates() {
    let v = Vec3::new(1, -2, 3);
    assert_eq!(v.x, 1);
    assert_eq!(v.y, -2);
    assert_eq!(v.z, 3);
}

#[test]
fn ray_straight_down_hits_at_ten() {
    let ray = Ray { origin: units(0, 10, 0), direction: units(0, -1, 0) };
    let t = intersect_plane(&ray, &units(0, 0, 0), &units(0, 1, 0));
    assert_eq!(t, Some(10_000));
    assert_eq!(point_at(&ray, 10_000), units(0, 0, 0));
}

#[test]
fn flipped_normal_gives_the_same_hit() {
    let ray = Ray { origin: units(0, 10, 0), direction: units(0, -1, 0) };
    assert_eq!(intersect_plane(&ray, &units(0, 0, 0), &units(0, -1, 0)), Some(10_000));
}

#[test]
fn parallel_ray_never_hits() {
    let normal = units(0, 1, 0);
    let ray = Ray { origin: units(0, 10, 0), direction: units(1, 0, 0) };
    assert_eq!(intersect_plane(&ray, &units(0, 0, 0), &normal), None);
    assert_eq!(intersect_plane(&ray, &units(5, -7, 2), &normal), None);
    assert_eq!(intersect_plane(&ray, &units(0, 20, 0), &normal), None);
    let slanted = Ray { origin: Vec3::new(1, 2, 3), direction: Vec3::new(3, 0, -4) };
    assert_eq!(intersect_plane(&slanted, &Vec3::new(9, 9, 9), &Vec3::new(4, 7, 3)), None);
}

#[test]
fn ray_lying_in_the_plane_never_hits() {
    let ray = Ray { origin: units(3, 0, 4), direction: units(1, 0, 0) };
    assert_eq!(intersect_plane(&ray, &units(0, 0, 0), &units(0, 1, 0)), None);
}

#[test]
fn zero_direction_never_hits() {
    let ray = Ray { origin: units(0, 10, 0), direction: units(0, 0, 0) };
    assert_eq!(intersect_plane(&ray, &units(0, 0, 0), &units(0, 1, 0)), None);
}

#[test]
fn plane_behind_the_origin_is_no_hit() {
    let up = Ray { origin: units(0, 10, 0), direction: units(0, 1, 0) };
    assert_eq!(intersect_plane(&up, &units(0, 0, 0), &units(0, 1, 0)), None);
    assert_eq!(intersect_plane(&up, &units(0, 0, 0), &units(0, -1, 0)), None);
    let down = Ray { origin: units(0, -10, 0), direction: units(0, -1, 0) };
    assert_eq!(intersect_plane(&down, &units(0, 0, 0), &units(0, 1, 0)), None);
    let barely = Ray { origin: Vec3::new(0, 1, 0), direction: units(0, 1, 0) };
    assert_eq!(intersect_plane(&barely, &units(0, 0, 0), &units(0, 1, 0)), None);
}

#[test]
fn origin_on_the_plane_hits_at_zero() {
    let ray = Ray { origin: units(4, 0, -2), direction: units(0, -1, 0) };
    assert_eq!(intersect_plane(&ray, &units(0, 0, 0), &units(0, 1, 0)), Some(0));
    let leaving = Ray { origin: units(4, 0, -2), direction: units(0, 1, 0) };
    assert_eq!(intersect_plane(&leaving, &units(0, 0, 0), &units(0, 1, 0)), Some(0));
    assert_eq!(point_at(&ray, 0), units(4, 0, -2));
}

#[test]
fn distance_is_rounded_down() {
    // numerator 1 * 1, denominator 3 * 1: a third, in thousandths
    let ray = Ray { origin: Vec3::new(0, 0, 0), direction: Vec3::new(0, 3, 0) };
    assert_eq!(intersect_plane(&ray, &Vec3::new(0, 1, 0), &Vec3::new(0, 1, 0)), Some(333));
    // the same with both signs turned
    assert_eq!(intersect_plane(&ray, &Vec3::new(0, 1, 0), &Vec3::new(0, -1, 0)), Some(333));
    // two thirds
    assert_eq!(intersect_plane(&ray, &Vec3::new(0, 2, 0), &Vec3::new(0, 1, 0)), Some(666));
}

#[test]
fn slanted_ray_hits_where_expected() {
    // from (15, 5, 15) towards the origin, direction (-3, -1, -3): t = 5
    let ray = Ray { origin: units(15, 5, 15), direction: units(-3, -1, -3) };
    let t = intersect_plane(&ray, &units(0, 0, 0), &units(0, 1, 0));
    assert_eq!(t, Some(5_000));
    assert_eq!(point_at(&ray, 5_000), units(0, 0, 0));
}

#[test]
fn plane_point_only_counts_along_the_normal() {
    let ray = Ray { origin: units(0, 10, 0), direction: units(0, -1, 0) };
    let normal = units(0, 1, 0);
    assert_eq!(intersect_plane(&ray, &units(0, 2, 0), &normal), Some(8_000));
    assert_eq!(intersect_plane(&ray, &units(100, 2, -50), &normal), Some(8_000));
}

#[test]
fn extreme_coordinates_do_not_overflow() {
    let ray = Ray {
        origin: Vec3::new(i32::MIN, i32::MIN, i32::MIN),
        direction: Vec3::new(0, 0, 1),
    };
    let point = Vec3::new(i32::MAX, i32::MAX, i32::MAX);
    let normal = Vec3::new(i32::MAX, i32::MAX, i32::MAX);
    // numerator 3 * (2^32 - 1) * (2^31 - 1), denominator 2^31 - 1
    let t = intersect_plane(&ray, &point, &normal);
    assert_eq!(t, Some(3 * 4_294_967_295i128 * 1000));
    assert_eq!(
        point_at(&ray, 3 * 4_294_967_295i128 * 1000),
        Vec3 { x: i32::MIN, y: i32::MIN, z: i32::MAX }
    );
}

#[test]
fn point_at_is_origin_plus_t_times_direction() {
    let ray = Ray { origin: Vec3::new(100, 200, 300), direction: Vec3::new(1000, -2000, 500) };
    assert_eq!(point_at(&ray, 1_000), Vec3 { x: 1100, y: -1800, z: 800 });
    assert_eq!(point_at(&ray, 2_500), Vec3 { x: 2600, y: -4800, z: 1550 });
    assert_eq!(point_at(&ray, -1_000), Vec3 { x: -900, y: 2200, z: -200 });
}

#[test]
fn point_at_rounds_each_coordinate_down() {
    let ray = Ray { origin: Vec3::new(0, 0, 0), direction: Vec3::new(1, -1, 1999) };
    // 0.001, -0.001 and 1.999 steps
    assert_eq!(point_at(&ray, 1), Vec3 { x: 0, y: -1, z: 1 });
    // -0.001, 0.001 and -1.999 steps
    assert_eq!(point_at(&ray, -1), Vec3 { x: -1, y: 0, z: -2 });
}

#[test]
fn point_at_stops_at_the_edge_of_the_lattice() {
    let ray = Ray { origin: Vec3::new(i32::MAX - 5, i32::MIN + 5, 7), direction: units(1, -1, 0) };
    assert_eq!(point_at(&ray, 5), Vec3 { x: i32::MAX, y: i32::MIN, z: 7 });
    assert_eq!(point_at(&ray, 6), Vec3 { x: i32::MAX, y: i32::MIN, z: 7 });
    assert_eq!(point_at(&ray, 4), Vec3 { x: i32::MAX - 1, y: i32::MIN + 1, z: 7 });
}

#[test]
fn point_at_takes_any_parameter() {
    let ray = Ray { origin: Vec3::new(1, 2, 3), direction: Vec3::new(1, -1, 0) };
    assert_eq!(point_at(&ray, i128::MAX), Vec3 { x: i32::MAX, y: i32::MIN, z: 3 });
    assert_eq!(point_at(&ray, i128::MIN), Vec3 { x: i32::MIN, y: i32::MAX, z: 3 });
    let limit: i128 = 0x1000_0000_0000;
    assert_eq!(point_at(&ray, limit), Vec3 { x: i32::MAX, y: i32::MIN, z: 3 });
    assert_eq!(point_at(&ray, limit + 1), Vec3 { x: i32::MAX, y: i32::MIN, z: 3 });
    assert_eq!(point_at(&ray, -limit), Vec3 { x: i32::MIN, y: i32::MAX, z: 3 });
    assert_eq!(point_at(&ray, -limit - 1), Vec3 { x: i32::MIN, y: i32::MAX, z: 3 });
    let wide = Ray { origin: Vec3::new(0, 0, 0), direction: Vec3::new(i32::MIN, i32::MAX, 0) };
    assert_eq!(point_at(&wide, limit), Vec3 { x: i32::MIN, y: i32::MAX, z: 0 });
    assert_eq!(point_at(&wide, 1_000), Vec3 { x: i32::MIN, y: i32::MAX, z: 0 });
    assert_eq!(point_at(&wide, 999), Vec3 { x: -2_145_336_165, y: 2_145_336_163, z: 0 });
}

#[test]
fn no_ray_error_is_one_value() {
    assert_eq!(NoRayError, NoRayError);
    let failed: Result<Ray, NoRayError> = Err(NoRayError);
    assert!(failed.is_err());
}

#[test]
fn hit_point_lies_near_the_plane() {
    let plane_point = Vec3::new(120, -340, 560);
    let normal = Vec3::new(267, 802, -535);
    let rays = [
        Ray { origin: Vec3::new(15_000, 5_000, 15_000), direction: Vec3::new(688, 229, 688) },
        Ray { origin: Vec3::new(-3_210, 7_654, 98), direction: Vec3::new(10, -999, 31) },
        Ray { origin: Vec3::new(9_999, -9_999, 1), direction: Vec3::new(-577, 577, -578) },
        Ray { origin: Vec3::new(0, 400, 0), direction: Vec3::new(-949, -1, 316) },
        Ray { origin: Vec3::new(1, 2, 3), direction: Vec3::new(-267, -802, 535) },
    ];
    for ray in rays {
        let den = i128::from(ray.direction.x) * i128::from(normal.x)
            + i128::from(ray.direction.y) * i128::from(normal.y)
            + i128::from(ray.direction.z) * i128::from(normal.z);
        let t = intersect_plane(&ray, &plane_point, &normal).expect("the plane lies ahead");
        let hit = point_at(&ray, t);
        assert_ne!(hit, ray.origin);
        let off = i128::from(hit.x - plane_point.x) * i128::from(normal.x)
            + i128::from(hit.y - plane_point.y) * i128::from(normal.y)
            + i128::from(hit.z - plane_point.z) * i128::from(normal.z);
        let slack = den.abs() + 1000 * i128::from(normal.x.abs() + normal.y.abs() + normal.z.abs());
        assert!((1000 * off).abs() < slack);
    }
}
