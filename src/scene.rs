use vstd::prelude::*;

use crate::geometry::{
    all_on_side, barrier_vertices, create_barrier, cross, edge_keeps_side, is_convex,
    is_convex_polygon, next_index, strictly_on, Point,
};
use crate::movement::Movement;
use crate::thrust::{BodyHandle, SpaceshipForceGenerator};

verus! {

// Lengths and positions are in thousandths of a world unit.
/// Collision margin of every collider.
pub const COLLIDER_MARGIN: i32 = 10;

/// Width of the rectangle the barrier is shaped from.
pub const BARRIER_WIDTH: u32 = 100_000;

/// Height of the rectangle the barrier is shaped from.
pub const BARRIER_HEIGHT: u32 = 500_000;

/// Where the barrier stands.
pub const BARRIER_X: i32 = 300_000;

pub const BARRIER_Y: i32 = 0;

/// Half the side of the spaceship's square, margin included.
pub const SPACESHIP_SIZE: i32 = 30_000;

/// Where the spaceship starts.
pub const SPACESHIP_X: i32 = 0;

pub const SPACESHIP_Y: i32 = 150_000;

/// A collision shape.
#[derive(Debug)]
pub enum Shape {
    /// A convex polygon through these vertices, in order.
    Polygon(Vec<Point>),
    /// An axis-aligned square with this half side.
    Square(i32),
}

/// One registration with the physics world. A scene is the ordered list of
/// its registrations; the `n`-th body added is referred to as `BodyHandle { index: n }`.
#[derive(Debug)]
pub enum SceneAction {
    /// A collider fixed to the immovable ground at `position`.
    AddGroundCollider { shape: Shape, position: Point, margin: i32 },
    /// A dynamic body at `position`, with the mass properties of `shape` at unit density.
    AddRigidBody { shape: Shape, position: Point },
    /// A collider attached to `body` at the body's origin.
    AddBodyCollider { body: BodyHandle, shape: Shape, margin: i32 },
    /// A force generator, invoked once per step.
    AddForceGenerator { generator: SpaceshipForceGenerator },
}

/// Why a scene cannot be built.
#[derive(Clone, Copy, Debug, PartialEq, Eq, Structural)]
pub enum SceneError {
    /// The barrier's vertices do not describe a strictly convex polygon.
    NonConvexBarrier,
}

/// How many actions of `s` satisfy `p`.
pub open spec fn count_where(s: Seq<SceneAction>, p: spec_fn(SceneAction) -> bool) -> nat
    decreases s.len(),
{
    if s.len() == 0 {
        0
    } else {
        count_where(s.drop_last(), p) + if p(s.last()) {
            1nat
        } else {
            0nat
        }
    }
}

pub open spec fn is_ground_collider(a: SceneAction) -> bool {
    a is AddGroundCollider
}

pub open spec fn is_rigid_body(a: SceneAction) -> bool {
    a is AddRigidBody
}

pub open spec fn is_body_collider(a: SceneAction) -> bool {
    a is AddBodyCollider
}

pub open spec fn is_force_generator(a: SceneAction) -> bool {
    a is AddForceGenerator
}

/// The bodies that the first `i` actions of `s` add.
pub open spec fn bodies_before(s: Seq<SceneAction>, i: int) -> nat {
    count_where(s.take(i), |a: SceneAction| is_rigid_body(a))
}

/// The body an action refers to, if any.
pub open spec fn body_referred(a: SceneAction) -> Option<BodyHandle> {
    match a {
        SceneAction::AddBodyCollider { body, .. } => Some(body),
        SceneAction::AddForceGenerator { generator } => Some(generator.body_spec()),
        _ => None,
    }
}

/// Every body an action refers to was added by an earlier action.
pub open spec fn references_resolve(s: Seq<SceneAction>) -> bool {
    forall|i: int|
        0 <= i < s.len() && (#[trigger] body_referred(s[i])) is Some ==> body_referred(
            s[i],
        )->0.index < bodies_before(s, i)
}

/// The square used for the spaceship: its half side less the collision margin.
pub open spec fn spaceship_shape() -> Shape {
    Shape::Square((SPACESHIP_SIZE - COLLIDER_MARGIN) as i32)
}

/// `a` is the spaceship scene around a barrier with vertices `barrier`: the
/// barrier fixed to the ground, then the spaceship body, its collider, and a
/// thrust generator driving it to the right.
pub open spec fn is_spaceship_scene(a: Seq<SceneAction>, barrier: Seq<Point>) -> bool {
    let ship = BodyHandle { index: 0 };
    &&& a.len() == 4
    &&& a[0] is AddGroundCollider
    &&& a[0]->AddGroundCollider_shape matches Shape::Polygon(v) && v@ == barrier
    &&& a[0]->AddGroundCollider_position == Point { x: BARRIER_X, y: BARRIER_Y }
    &&& a[0]->AddGroundCollider_margin == COLLIDER_MARGIN
    &&& a[1] is AddRigidBody
    &&& a[1]->AddRigidBody_shape == spaceship_shape()
    &&& a[1]->AddRigidBody_position == Point { x: SPACESHIP_X, y: SPACESHIP_Y }
    &&& a[2] is AddBodyCollider
    &&& a[2]->AddBodyCollider_body == ship
    &&& a[2]->AddBodyCollider_shape == spaceship_shape()
    &&& a[2]->AddBodyCollider_margin == COLLIDER_MARGIN
    &&& a[3] is AddForceGenerator
    &&& a[3]->generator.movement_spec() == Movement::Right
    &&& a[3]->generator.body_spec() == ship
}

/// The spaceship scene around a barrier with the given vertices, or
/// `NonConvexBarrier` when they do not describe a strictly convex polygon.
pub fn build_scene(barrier: Vec<Point>) -> (r: Result<Vec<SceneAction>, SceneError>)
    ensures
        r is Err <==> !is_convex_polygon(barrier@),
        r matches Err(e) ==> e == SceneError::NonConvexBarrier,
        r matches Ok(a) ==> is_spaceship_scene(a@, barrier@),
{
    if !is_convex(&barrier) {
        return Err(SceneError::NonConvexBarrier);
    }
    let ghost vertices = barrier@;
    let ship = BodyHandle { index: 0 };
    let mut actions: Vec<SceneAction> = Vec::new();
    actions.push(
        SceneAction::AddGroundCollider {
            shape: Shape::Polygon(barrier),
            position: Point { x: BARRIER_X, y: BARRIER_Y },
            margin: COLLIDER_MARGIN,
        },
    );
    actions.push(
        SceneAction::AddRigidBody {
            shape: Shape::Square(SPACESHIP_SIZE - COLLIDER_MARGIN),
            position: Point { x: SPACESHIP_X, y: SPACESHIP_Y },
        },
    );
    actions.push(
        SceneAction::AddBodyCollider {
            body: ship,
            shape: Shape::Square(SPACESHIP_SIZE - COLLIDER_MARGIN),
            margin: COLLIDER_MARGIN,
        },
    );
    let generator = SpaceshipForceGenerator::new(ship, Movement::Right);
    actions.push(SceneAction::AddForceGenerator { generator });
    Ok(actions)
}

/// The barrier with the documented offsets is a strictly convex polygon.
pub proof fn lemma_documented_barrier_is_convex()
    ensures
        is_convex_polygon(barrier_vertices(BARRIER_WIDTH, BARRIER_HEIGHT)),
{
    let s = barrier_vertices(BARRIER_WIDTH, BARRIER_HEIGHT);
    let p0 = Point { x: 50_500i32, y: 250_750i32 };
    let p1 = Point { x: 49_500i32, y: -249_450i32 };
    let p2 = Point { x: -50_750i32, y: -249_125i32 };
    let p3 = Point { x: -50_350i32, y: 250_450i32 };
    assert(s[0] == p0 && s[1] == p1 && s[2] == p2 && s[3] == p3);
    assert((p1.x - p0.x) * (p2.y - p0.y) == 499_875_000) by (nonlinear_arith)
        requires
            p1.x - p0.x == -1_000,
            p2.y - p0.y == -499_875,
    ;
    assert((p1.y - p0.y) * (p2.x - p0.x) == 50_645_250_000) by (nonlinear_arith)
        requires
            p1.y - p0.y == -500_200,
            p2.x - p0.x == -101_250,
    ;
    assert(cross(p0, p1, p2) < 0);
    assert((p1.x - p0.x) * (p3.y - p0.y) == 300_000) by (nonlinear_arith)
        requires
            p1.x - p0.x == -1_000,
            p3.y - p0.y == -300,
    ;
    assert((p1.y - p0.y) * (p3.x - p0.x) == 50_445_170_000) by (nonlinear_arith)
        requires
            p1.y - p0.y == -500_200,
            p3.x - p0.x == -100_850,
    ;
    assert(cross(p0, p1, p3) < 0);
    assert((p2.x - p1.x) * (p0.y - p1.y) == -50_145_050_000) by (nonlinear_arith)
        requires
            p2.x - p1.x == -100_250,
            p0.y - p1.y == 500_200,
    ;
    assert((p2.y - p1.y) * (p0.x - p1.x) == 325_000) by (nonlinear_arith)
        requires
            p2.y - p1.y == 325,
            p0.x - p1.x == 1_000,
    ;
    assert(cross(p1, p2, p0) < 0);
    assert((p2.x - p1.x) * (p3.y - p1.y) == -50_114_975_000) by (nonlinear_arith)
        requires
            p2.x - p1.x == -100_250,
            p3.y - p1.y == 499_900,
    ;
    assert((p2.y - p1.y) * (p3.x - p1.x) == -32_451_250) by (nonlinear_arith)
        requires
            p2.y - p1.y == 325,
            p3.x - p1.x == -99_850,
    ;
    assert(cross(p1, p2, p3) < 0);
    assert((p3.x - p2.x) * (p0.y - p2.y) == 199_950_000) by (nonlinear_arith)
        requires
            p3.x - p2.x == 400,
            p0.y - p2.y == 499_875,
    ;
    assert((p3.y - p2.y) * (p0.x - p2.x) == 50_581_968_750) by (nonlinear_arith)
        requires
            p3.y - p2.y == 499_575,
            p0.x - p2.x == 101_250,
    ;
    assert(cross(p2, p3, p0) < 0);
    assert((p3.x - p2.x) * (p1.y - p2.y) == -130_000) by (nonlinear_arith)
        requires
            p3.x - p2.x == 400,
            p1.y - p2.y == -325,
    ;
    assert((p3.y - p2.y) * (p1.x - p2.x) == 50_082_393_750) by (nonlinear_arith)
        requires
            p3.y - p2.y == 499_575,
            p1.x - p2.x == 100_250,
    ;
    assert(cross(p2, p3, p1) < 0);
    assert((p0.x - p3.x) * (p1.y - p3.y) == -50_414_915_000) by (nonlinear_arith)
        requires
            p0.x - p3.x == 100_850,
            p1.y - p3.y == -499_900,
    ;
    assert((p0.y - p3.y) * (p1.x - p3.x) == 29_955_000) by (nonlinear_arith)
        requires
            p0.y - p3.y == 300,
            p1.x - p3.x == 99_850,
    ;
    assert(cross(p3, p0, p1) < 0);
    assert((p0.x - p3.x) * (p2.y - p3.y) == -50_382_138_750) by (nonlinear_arith)
        requires
            p0.x - p3.x == 100_850,
            p2.y - p3.y == -499_575,
    ;
    assert((p0.y - p3.y) * (p2.x - p3.x) == -120_000) by (nonlinear_arith)
        requires
            p0.y - p3.y == 300,
            p2.x - p3.x == -400,
    ;
    assert(cross(p3, p0, p2) < 0);
    assert(edge_keeps_side(s, 0, false)) by {
        assert(next_index(4, 0) == 1);
        assert(cross(s[0], s[1], s[2]) < 0);
        assert(cross(s[0], s[1], s[3]) < 0);
        assert forall|j: int| 0 <= j < 4 && j != 0 && j != 1 implies strictly_on(false, #[trigger] cross(s[0], s[next_index(4, 0)], s[j])) by {
            assert(j == 2 || j == 3);
        }
    }
    assert(edge_keeps_side(s, 1, false)) by {
        assert(next_index(4, 1) == 2);
        assert(cross(s[1], s[2], s[0]) < 0);
        assert(cross(s[1], s[2], s[3]) < 0);
        assert forall|j: int| 0 <= j < 4 && j != 1 && j != 2 implies strictly_on(false, #[trigger] cross(s[1], s[next_index(4, 1)], s[j])) by {
            assert(j == 0 || j == 3);
        }
    }
    assert(edge_keeps_side(s, 2, false)) by {
        assert(next_index(4, 2) == 3);
        assert(cross(s[2], s[3], s[0]) < 0);
        assert(cross(s[2], s[3], s[1]) < 0);
        assert forall|j: int| 0 <= j < 4 && j != 2 && j != 3 implies strictly_on(false, #[trigger] cross(s[2], s[next_index(4, 2)], s[j])) by {
            assert(j == 0 || j == 1);
        }
    }
    assert(edge_keeps_side(s, 3, false)) by {
        assert(next_index(4, 3) == 0);
        assert(cross(s[3], s[0], s[1]) < 0);
        assert(cross(s[3], s[0], s[2]) < 0);
        assert forall|j: int| 0 <= j < 4 && j != 3 && j != 0 implies strictly_on(false, #[trigger] cross(s[3], s[next_index(4, 3)], s[j])) by {
            assert(j == 1 || j == 2);
        }
    }
    assert(all_on_side(s, false));
}

/// The scene around the documented barrier. Building it always succeeds.
pub fn spaceship_scene() -> (r: Result<Vec<SceneAction>, SceneError>)
    ensures
        r is Ok,
        r matches Ok(a) ==> is_spaceship_scene(a@, barrier_vertices(BARRIER_WIDTH, BARRIER_HEIGHT)),
{
    proof {
        lemma_documented_barrier_is_convex();
    }
    build_scene(create_barrier(BARRIER_WIDTH, BARRIER_HEIGHT))
}

/// A spaceship scene registers exactly one dynamic body, one static (ground)
/// collider, one collider on a dynamic body and one force generator, and every
/// body an action refers to has been added before it.
pub proof fn lemma_scene_registrations(a: Seq<SceneAction>, barrier: Seq<Point>)
    requires
        is_spaceship_scene(a, barrier),
    ensures
        count_where(a, |x: SceneAction| is_rigid_body(x)) == 1,
        count_where(a, |x: SceneAction| is_ground_collider(x)) == 1,
        count_where(a, |x: SceneAction| is_body_collider(x)) == 1,
        count_where(a, |x: SceneAction| is_force_generator(x)) == 1,
        references_resolve(a),
{
    reveal_with_fuel(count_where, 5);
    assert(a.take(4) =~= a);
    assert(a.take(3).drop_last() =~= a.take(2));
    assert(a.take(2).drop_last() =~= a.take(1));
    assert(a.take(1).drop_last() =~= a.take(0));
    assert(a.drop_last() =~= a.take(3));
    assert(bodies_before(a, 2) == 1);
    assert(bodies_before(a, 3) == 1);
    assert forall|i: int|
        0 <= i < a.len() && (#[trigger] body_referred(a[i])) is Some implies body_referred(
            a[i],
        )->0.index < bodies_before(a, i) by {
        assert(i == 2 || i == 3);
    }
}

} // verus!
