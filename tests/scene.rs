use thrust2d::geometry::{create_barrier, cross_product, is_convex, Point};
use thrust2d::movement::Movement;
use thrust2d::scene::{
    build_scene, spaceship_scene, SceneAction, SceneError, Shape, BARRIER_HEIGHT, BARRIER_WIDTH,
    COLLIDER_MARGIN,
};
use thrust2d::thrust::BodyHandle;

fn p(x: i32, y: i32) -> Point {
    Point { x, y }
}

#[test]
fn barrier_has_documented_vertices() {
    assert_eq!(
        create_barrier(100_000, 500_000),
        vec![p(50_500, 250_750), p(49_500, -249_450), p(-50_750, -249_125), p(-50_350, 250_450)]
    );
}

#[test]
fn barrier_of_empty_rectangle_is_the_offsets() {
    assert_eq!(
        create_barrier(0, 0),
        vec![p(500, 750), p(-500, 550), p(-750, 875), p(-350, 450)]
    );
}

#[test]
fn cross_product_sign_and_value() {
    assert_eq!(cross_product(p(0, 0), p(1, 0), p(0, 1)), 1);
    assert_eq!(cross_product(p(0, 0), p(1, 0), p(0, -1)), -1);
    assert_eq!(cross_product(p(0, 0), p(2, 2), p(5, 5)), 0);
    let big = cross_product(p(i32::MIN, i32::MIN), p(i32::MAX, i32::MIN), p(i32::MIN, i32::MAX));
    assert_eq!(big, (u32::MAX as i128) * (u32::MAX as i128));
}

#[test]
fn convexity_accepts_both_orientations() {
    let mut barrier = create_barrier(BARRIER_WIDTH, BARRIER_HEIGHT);
    assert!(is_convex(&barrier));
    barrier.reverse();
    assert!(is_convex(&barrier));
    assert!(is_convex(&vec![p(0, 0), p(10, 0), p(0, 10)]));
}

#[test]
fn convexity_rejects_bad_vertex_lists() {
    assert!(!is_convex(&vec![]));
    assert!(!is_convex(&vec![p(0, 0), p(1, 1)]));
    // collinear
    assert!(!is_convex(&vec![p(0, 0), p(1, 1), p(2, 2)]));
    // self-intersecting quadrilateral
    assert!(!is_convex(&vec![p(0, 0), p(10, 10), p(10, 0), p(0, 10)]));
    // dented quadrilateral
    assert!(!is_convex(&vec![p(0, 0), p(10, 0), p(2, 2), p(0, 10)]));
    // a pentagram turns the same way at every vertex but winds twice
    let star = vec![p(0, 100), p(59, -81), p(-95, 31), p(95, 31), p(-59, -81)];
    assert!(!is_convex(&star));
}

#[test]
fn documented_scene_registers_one_of_each() {
    let actions = spaceship_scene().unwrap();
    assert_eq!(actions.len(), 4);
    let mut ground = 0;
    let mut bodies = 0;
    let mut body_colliders = 0;
    let mut generators = 0;
    for a in &actions {
        match a {
            SceneAction::AddGroundCollider { .. } => ground += 1,
            SceneAction::AddRigidBody { .. } => bodies += 1,
            SceneAction::AddBodyCollider { .. } => body_colliders += 1,
            SceneAction::AddForceGenerator { .. } => generators += 1,
        }
    }
    assert_eq!((ground, bodies, body_colliders, generators), (1, 1, 1, 1));
}

#[test]
fn documented_scene_contents() {
    let actions = spaceship_scene().unwrap();
    match &actions[0] {
        SceneAction::AddGroundCollider { shape: Shape::Polygon(v), position, margin } => {
            assert_eq!(v, &create_barrier(100_000, 500_000));
            assert_eq!(*position, p(300_000, 0));
            assert_eq!(*margin, COLLIDER_MARGIN);
        }
        other => panic!("unexpected first action {:?}", other),
    }
    match &actions[1] {
        SceneAction::AddRigidBody { shape: Shape::Square(half), position } => {
            assert_eq!(*half, 29_990);
            assert_eq!(*position, p(0, 150_000));
        }
        other => panic!("unexpected second action {:?}", other),
    }
    match &actions[2] {
        SceneAction::AddBodyCollider { body, shape: Shape::Square(half), margin } => {
            assert_eq!(*body, BodyHandle { index: 0 });
            assert_eq!(*half, 29_990);
            assert_eq!(*margin, 10);
        }
        other => panic!("unexpected third action {:?}", other),
    }
    match &actions[3] {
        SceneAction::AddForceGenerator { generator } => {
            assert_eq!(generator.movement(), Movement::Right);
            assert_eq!(generator.body_handle(), BodyHandle { index: 0 });
        }
        other => panic!("unexpected fourth action {:?}", other),
    }
}

#[test]
fn self_intersecting_barrier_is_rejected() {
    let bowtie = vec![p(0, 0), p(100_000, 500_000), p(100_000, 0), p(0, 500_000)];
    assert_eq!(build_scene(bowtie).unwrap_err(), SceneError::NonConvexBarrier);
}

#[test]
fn degenerate_barrier_is_rejected() {
    let flat = vec![p(0, 0), p(0, 0), p(5, 5), p(1, 0)];
    assert_eq!(build_scene(flat).unwrap_err(), SceneError::NonConvexBarrier);
}

#[test]
fn convex_barrier_builds() {
    let square = vec![p(0, 0), p(0, 1_000), p(1_000, 1_000), p(1_000, 0)];
    let actions = build_scene(square.clone()).unwrap();
    match &actions[0] {
        SceneAction::AddGroundCollider { shape: Shape::Polygon(v), .. } => assert_eq!(v, &square),
        other => panic!("unexpected first action {:?}", other),
    }
}
