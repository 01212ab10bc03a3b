use ray_tracer::{closest_hit, front_face, select_root, Roots, Scalar, World};

fn s(x: f64) -> Scalar {
    Scalar::from_bits(x.to_bits())
}

fn some(x: f64) -> Option<Scalar> {
    Some(s(x))
}

#[test]
fn a_new_world_is_empty_and_keeps_its_background() {
    let world: World<u8, &str> = World::new("sky");
    assert_eq!(world.objects.len(), 0);
    assert_eq!(world.background, "sky");
}

#[test]
fn objects_are_added_at_the_end_and_cleared_together() {
    let mut world: World<u8, &str> = World::new("sky");
    world.add(3);
    world.add(1);
    world.add(2);
    assert_eq!(world.objects, vec![3, 1, 2]);
    assert_eq!(world.background, "sky");
    world.clear();
    assert_eq!(world.objects.len(), 0);
    assert_eq!(world.background, "sky");
    world.add(9);
    assert_eq!(world.objects, vec![9]);
}

#[test]
fn nothing_is_hit_where_no_object_is() {
    assert_eq!(closest_hit(&vec![]), None);
    assert_eq!(closest_hit(&vec![None, None, None]), None);
}

#[test]
fn the_only_hit_is_the_closest() {
    assert_eq!(closest_hit(&vec![None, some(3.0), None]), Some(1));
    assert_eq!(closest_hit(&vec![some(3.0)]), Some(0));
}

#[test]
fn of_two_spheres_on_one_ray_the_nearer_is_hit() {
    assert_eq!(closest_hit(&vec![some(1.5), some(0.5)]), Some(1));
    assert_eq!(closest_hit(&vec![some(0.5), some(1.5)]), Some(0));
}

#[test]
fn of_two_hits_at_one_distance_the_first_is_kept() {
    assert_eq!(closest_hit(&vec![some(2.0), some(2.0), some(2.0)]), Some(0));
    assert_eq!(closest_hit(&vec![None, some(2.0), some(3.0), some(2.0)]), Some(1));
    assert_eq!(closest_hit(&vec![some(0.0), some(-0.0)]), Some(0));
    assert_eq!(closest_hit(&vec![some(-0.0), some(0.0)]), Some(0));
}

#[test]
fn the_closest_of_many() {
    let found = vec![some(7.0), None, some(0.25), some(100.0), some(0.125), None, some(0.125)];
    assert_eq!(closest_hit(&found), Some(4));
    let found = vec![some(-1.0), some(-3.0), some(2.0)];
    assert_eq!(closest_hit(&found), Some(1));
}

#[test]
fn the_closest_is_the_first_smallest_number() {
    let distances: Vec<f64> = vec![4.5, 0.75, 9.0, 0.75, 3.0, 0.5, 0.5, 8.0];
    for n in 1..=distances.len() {
        let found: Vec<Option<Scalar>> = distances[..n].iter().map(|t| some(*t)).collect();
        let mut expected: usize = 0;
        for i in 0..n {
            if distances[i] < distances[expected] {
                expected = i;
            }
        }
        assert_eq!(closest_hit(&found), Some(expected));
    }
}

#[test]
fn the_nearer_root_is_the_hit() {
    let r = select_root(Roots::new(s(0.25), s(1.5), s(2.5)), s(0.0), s(100.0));
    assert_eq!(r, some(1.5));
}

#[test]
fn the_farther_root_is_the_hit_from_within_the_sphere() {
    let r = select_root(Roots::new(s(0.25), s(-0.5), s(0.5)), s(0.001), s(f64::INFINITY));
    assert_eq!(r, some(0.5));
}

#[test]
fn a_root_on_the_bounds_of_the_interval_is_no_hit() {
    assert_eq!(select_root(Roots::new(s(1.0), s(0.0), s(100.0)), s(0.0), s(100.0)), None);
    assert_eq!(select_root(Roots::new(s(1.0), s(0.0), s(50.0)), s(0.0), s(100.0)), some(50.0));
    assert_eq!(select_root(Roots::new(s(1.0), s(1.0), s(100.0)), s(0.0), s(100.0)), some(1.0));
}

#[test]
fn roots_outside_the_interval_are_no_hit() {
    assert_eq!(select_root(Roots::new(s(1.0), s(-3.0), s(-1.0)), s(0.0), s(100.0)), None);
    assert_eq!(select_root(Roots::new(s(1.0), s(200.0), s(300.0)), s(0.0), s(100.0)), None);
    assert_eq!(select_root(Roots::new(s(1.0), s(-1.0), s(300.0)), s(0.0), s(100.0)), None);
}

#[test]
fn a_ray_that_passes_the_sphere_by_hits_nothing() {
    assert_eq!(select_root(Roots::new(s(-0.5), s(1.0), s(2.0)), s(0.0), s(100.0)), None);
    assert_eq!(select_root(Roots::new(s(0.0), s(1.0), s(1.0)), s(0.0), s(100.0)), None);
    assert_eq!(select_root(Roots::new(s(-0.0), s(1.0), s(1.0)), s(0.0), s(100.0)), None);
    assert_eq!(select_root(Roots::new(s(f64::NAN), s(1.0), s(2.0)), s(0.0), s(100.0)), None);
}

#[test]
fn a_narrower_interval_gives_the_same_hit_or_none() {
    let roots: Vec<(f64, f64)> = vec![(1.5, 2.5), (-0.5, 0.5), (0.2, 0.3), (-2.0, -1.0), (3.0, 3.0)];
    let closers: Vec<f64> = vec![0.1, 0.25, 0.5, 1.0, 2.0, 3.0, 10.0];
    for (near, far) in roots {
        let wide = select_root(Roots::new(s(1.0), s(near), s(far)), s(0.001), s(10.0));
        for closer in closers.iter() {
            let narrow = select_root(Roots::new(s(1.0), s(near), s(far)), s(0.001), s(*closer));
            let expected = match wide {
                Some(t) if f64::from_bits(t.bits) < *closer => Some(t),
                _ => None,
            };
            assert_eq!(narrow, expected);
        }
    }
}

#[test]
fn the_front_is_where_the_ray_goes_against_the_normal() {
    assert!(front_face(s(-1.0)));
    assert!(front_face(s(-5e-324)));
    assert!(!front_face(s(0.0)));
    assert!(!front_face(s(-0.0)));
    assert!(!front_face(s(0.5)));
    assert!(!front_face(s(f64::NAN)));
}
