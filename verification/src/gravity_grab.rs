//! Gravity grab: targeting a distant object with a forward sweep, pulling
//! it while the squeeze trigger is held, and flinging it toward the hand
//! with a ballistic launch once the hand moves fast enough.
//!
//! The launch solve uses a fixed elevation of 60 degrees and gravity 9.81:
//! `v^2 = g * d^2 / (2 * cos^2(60) * (d * tan(60) - y))` for horizontal
//! distance `d` and height difference `y`. When the denominator turns
//! negative (target high above and close) the solve does not fail: the sign
//! of `v^2` is preserved through the square root, yielding a deterministic,
//! finite launch vector. All lengths are fixed-point milli-units.

use vstd::prelude::*;
use crate::actions::XrActionStateFloat;
use crate::fixed::{
    abs_i, dist_sq, dist_sq_spec, is_sqrt_floor, isqrt_u64, lemma_div_mul_cancel,
    lemma_mul_bound, lemma_sqrt_floor_exists, norm_sq, norm_sq_spec, sqrt_floor, tdiv, tdiv_i64,
    PoseFx, Vec3Fx, MILLI,
};
use crate::objects::{
    HandState, InteractableObject, InteractionWorld, ObjectState, WorldModel, OBJ_POS_LIMIT,
};

verus! {

/// Gravitational acceleration, milli-units per second squared.
pub const GRAVITY_MILLI: i64 = 9810;

/// `tan(60 degrees) = sqrt(3)` in milli fixed point.
pub const SQRT3_MILLI: i64 = 1732;

/// `sin(60 degrees)` in milli fixed point.
pub const SIN60_MILLI: i64 = 866;

/// Bound on the positions the launch solve accepts.
pub const LAUNCH_ARG_LIMIT: i64 = 200_000;

/// Squared targeting range: an object farther than this squared distance
/// from the hand (5.0 squared units) is not targeted.
pub const TARGET_RANGE_SQ: i64 = 5_000_000;

/// Squared launch threshold: a pulled object launches once the hand speed
/// exceeds 0.5 units per second.
pub const PULL_SPEED_SQ: i64 = 250_000;

/// Horizontal distance between hand and object: the integer square root of
/// the sum of the squared x and z differences.
pub open spec fn launch_dxz(hand: Vec3Fx, obj: Vec3Fx) -> int {
    sqrt_floor(
        (hand.x - obj.x) * (hand.x - obj.x) + (hand.z - obj.z) * (hand.z - obj.z),
    )
}

/// The denominator of the solve, scaled by `MILLI`:
/// `MILLI * (d * tan(60) - y)` for `d = launch_dxz`, `y` the height the
/// hand sits above the object.
pub open spec fn launch_den(hand: Vec3Fx, obj: Vec3Fx) -> int {
    SQRT3_MILLI * launch_dxz(hand, obj) - MILLI * (hand.y - obj.y)
}

/// The squared launch speed in squared milli-units, sign included. A zero
/// denominator yields zero rather than a division.
pub open spec fn launch_v2(hand: Vec3Fx, obj: Vec3Fx) -> int {
    let d = launch_dxz(hand, obj);
    if launch_den(hand, obj) == 0 {
        0
    } else {
        tdiv(2 * GRAVITY_MILLI * MILLI * d * d, launch_den(hand, obj))
    }
}

/// The launch speed: the square root of the magnitude of `launch_v2`, with
/// the sign of `launch_v2` reapplied.
pub open spec fn launch_speed(hand: Vec3Fx, obj: Vec3Fx) -> int {
    let v2 = launch_v2(hand, obj);
    if v2 >= 0 {
        sqrt_floor(v2)
    } else {
        -sqrt_floor(-v2)
    }
}

/// The horizontal x component: the speed times `cos(60) = 1/2` along the
/// unit horizontal direction. Directly above or below (`d == 0`) there is
/// no horizontal direction and the component is zero.
pub open spec fn launch_vx(hand: Vec3Fx, obj: Vec3Fx) -> int {
    let d = launch_dxz(hand, obj);
    if d == 0 {
        0
    } else {
        tdiv((hand.x - obj.x) * launch_speed(hand, obj), 2 * d)
    }
}

/// The vertical component: the speed times `sin(60)`.
pub open spec fn launch_vy(hand: Vec3Fx, obj: Vec3Fx) -> int {
    tdiv(SIN60_MILLI * launch_speed(hand, obj), MILLI as int)
}

/// The horizontal z component, as `launch_vx`.
pub open spec fn launch_vz(hand: Vec3Fx, obj: Vec3Fx) -> int {
    let d = launch_dxz(hand, obj);
    if d == 0 {
        0
    } else {
        tdiv((hand.z - obj.z) * launch_speed(hand, obj), 2 * d)
    }
}

/// The launch velocity assembled as a vector. The components provably fit
/// an `i64` for positions within `LAUNCH_ARG_LIMIT`.
pub open spec fn launch_velocity_spec(hand: Vec3Fx, obj: Vec3Fx) -> Vec3Fx {
    Vec3Fx {
        x: launch_vx(hand, obj) as i64,
        y: launch_vy(hand, obj) as i64,
        z: launch_vz(hand, obj) as i64,
    }
}

/// Computes the velocity that launches an object at the hand: the ballistic
/// solve at a fixed 60-degree elevation, with the sign of the squared speed
/// preserved through the square root instead of failing on infeasible
/// geometry.
pub fn compute_launch_velocity(hand_transform: &PoseFx, obj_transform: &PoseFx) -> (r: Vec3Fx)
    requires
        hand_transform.position.in_range(LAUNCH_ARG_LIMIT as int),
        obj_transform.position.in_range(LAUNCH_ARG_LIMIT as int),
    ensures
        r == launch_velocity_spec(hand_transform.position, obj_transform.position),
        r.x == launch_vx(hand_transform.position, obj_transform.position),
        r.y == launch_vy(hand_transform.position, obj_transform.position),
        r.z == launch_vz(hand_transform.position, obj_transform.position),
{
    let hand: Vec3Fx = hand_transform.position;
    let obj: Vec3Fx = obj_transform.position;
    let dx: i64 = hand.x - obj.x;
    let dy: i64 = hand.y - obj.y;
    let dz: i64 = hand.z - obj.z;
    proof {
        crate::fixed::lemma_square_bound(dx as int, 400_000);
        crate::fixed::lemma_square_bound(dz as int, 400_000);
    }
    let dxz_sq: i64 = dx * dx + dz * dz;
    let du: u64 = isqrt_u64(dxz_sq as u64);
    // du * du <= dxz_sq <= 3.2e11, so du <= 565_686
    assert(du <= 565_686) by (nonlinear_arith)
        requires (du as int) * (du as int) <= 320_000_000_000,
    ;
    let d: i64 = du as i64;
    proof {
        crate::fixed::lemma_square_bound(d as int, 565_686);
    }
    let d2: i64 = d * d;
    assert(d2 <= dxz_sq);
    let den: i64 = SQRT3_MILLI * d - MILLI * dy;
    let v2: i64 = if den == 0 {
        0
    } else {
        tdiv_i64(2 * GRAVITY_MILLI * MILLI * d2, den)
    };
    proof {
        // |v2| <= |num| / 1 = num <= 19_620_000 * 3.2e11
        if den != 0 {
            vstd::arithmetic::div_mod::lemma_div_nonincreasing(
                abs_i(2 * (GRAVITY_MILLI as int) * (MILLI as int) * (d2 as int)),
                abs_i(den as int),
            );
        }
        assert(abs_i(v2 as int) <= 6_278_400_000_000_000_000);
    }
    let speed: i64 = if v2 >= 0 {
        let su: u64 = isqrt_u64(v2 as u64);
        // su * su <= v2, so su <= 2_600_000_000
        assert(su <= 2_600_000_000) by (nonlinear_arith)
            requires (su as int) * (su as int) <= 6_278_400_000_000_000_000,
        ;
        su as i64
    } else {
        let su: u64 = isqrt_u64((-v2) as u64);
        assert(su <= 2_600_000_000) by (nonlinear_arith)
            requires (su as int) * (su as int) <= 6_278_400_000_000_000_000,
        ;
        -(su as i64)
    };
    proof {
        lemma_mul_bound(dx as int, speed as int, 400_000, 2_600_000_000);
        lemma_mul_bound(dz as int, speed as int, 400_000, 2_600_000_000);
        lemma_mul_bound(SIN60_MILLI as int, speed as int, 866, 2_600_000_000);
    }
    let vx: i64 = if d == 0 {
        0
    } else {
        tdiv_i64(dx * speed, 2 * d)
    };
    let vy: i64 = tdiv_i64(SIN60_MILLI * speed, MILLI);
    let vz: i64 = if d == 0 {
        0
    } else {
        tdiv_i64(dz * speed, 2 * d)
    };
    assert(2 * (GRAVITY_MILLI as int) * (MILLI as int) * (d as int) * (d as int) == 2 * (
    GRAVITY_MILLI as int) * (MILLI as int) * (d2 as int)) by (nonlinear_arith)
        requires d2 == (d as int) * (d as int),
    ;
    Vec3Fx { x: vx, y: vy, z: vz }
}

/// The sign of the launch speed is the sign of the squared-speed solve:
/// infeasible geometry (negative denominator) yields a negative speed, it
/// never turns into a failure or a positive fling.
pub proof fn lemma_launch_speed_sign(hand: Vec3Fx, obj: Vec3Fx)
    ensures
        launch_v2(hand, obj) > 0 ==> launch_speed(hand, obj) > 0,
        launch_v2(hand, obj) == 0 ==> launch_speed(hand, obj) == 0,
        launch_v2(hand, obj) < 0 ==> launch_speed(hand, obj) < 0,
{
    let v2 = launch_v2(hand, obj);
    if v2 >= 0 {
        lemma_sqrt_floor_exists(v2);
        let r = sqrt_floor(v2);
        assert(is_sqrt_floor(v2, r));
        if v2 == 0 {
            assert(r == 0) by (nonlinear_arith)
                requires r >= 0, r * r <= 0,
            ;
        } else {
            assert(r >= 1) by (nonlinear_arith)
                requires r >= 0, v2 >= 1, v2 < (r + 1) * (r + 1),
            ;
        }
    } else {
        lemma_sqrt_floor_exists(-v2);
        let r = sqrt_floor(-v2);
        assert(is_sqrt_floor(-v2, r));
        assert(r >= 1) by (nonlinear_arith)
            requires r >= 0, -v2 >= 1, -v2 < (r + 1) * (r + 1),
        ;
    }
}

/// An object stripped of its `Targeted` tag; any other state is kept.
pub open spec fn clear_target_obj(o: InteractableObject) -> InteractableObject {
    if o.state is Targeted {
        InteractableObject { state: ObjectState::Free, ..o }
    } else {
        o
    }
}

/// The clear phase: every `Targeted` tag is removed and the targeted slot
/// emptied, leaving all other object state untouched.
pub open spec fn cleared(m: WorldModel) -> WorldModel {
    WorldModel {
        objects: Seq::new(m.objects.len(), |i: int| clear_target_obj(m.objects[i])),
        targeted: None,
        ..m
    }
}

/// Unconditionally clears the transient `Targeted` highlight at the start
/// of every targeting pass, so the highlight never lags the current sweep.
pub fn outlines(world: &mut InteractionWorld)
    requires
        old(world)@.wf(),
    ensures
        final(world)@ == cleared(old(world)@),
        final(world)@.wf(),
{
    let ghost m = world@;
    match world.targeted {
        Some(i) => {
            let o = world.objects[i];
            world.objects.set(i, InteractableObject { state: ObjectState::Free, ..o });
            world.targeted = None;
        },
        None => {},
    }
    proof {
        vstd::std_specs::vec::axiom_spec_len(&world.objects);
        assert forall|j: int| 0 <= j < world@.objects.len() implies #[trigger] world@.objects[j]
            == cleared(m).objects[j] by {
            if m.objects[j].state is Targeted {
                assert(m.targeted == Some(j as usize));
            }
        }
        assert(world@.objects =~= cleared(m).objects);
        if m.targeted is Some {
            crate::objects::lemma_wf_one_object_change(m, world@, m.targeted.unwrap() as int);
        }
    }
}

/// The clear phase preserves the singleton-slot invariant.
pub proof fn lemma_cleared_wf(m: WorldModel)
    requires
        m.wf(),
        m.objects.len() <= usize::MAX,
    ensures
        cleared(m).wf(),
{
    let m2 = cleared(m);
    match m.targeted {
        Some(i) => {
            assert forall|j: int|
                0 <= j < m.objects.len() && j != i implies #[trigger] m2.objects[j]
                == m.objects[j] by {
                if m.objects[j].state is Targeted {
                    assert(m.targeted == Some(j as usize));
                }
            }
            crate::objects::lemma_wf_one_object_change(m, m2, i as int);
        },
        None => {
            assert forall|j: int|
                0 <= j < m.objects.len() implies #[trigger] m2.objects[j] == m.objects[j] by {
                if m.objects[j].state is Targeted {
                    assert(m.targeted == Some(j as usize));
                }
            }
            assert forall|j: int|
                0 <= j < m2.objects.len() && m2.objects[j].state == ObjectState::Held implies
                m2.held == Some(j as usize) by {
                assert(m.objects[j].state == ObjectState::Held);
            }
            assert forall|j: int|
                0 <= j < m2.objects.len() && m2.objects[j].state == ObjectState::Pulled implies
                m2.pulled == Some(j as usize) by {
                assert(m.objects[j].state == ObjectState::Pulled);
            }
            assert forall|j: int|
                0 <= j < m2.objects.len() && m2.objects[j].state == ObjectState::Targeted implies
                m2.targeted == Some(j as usize) by {
                assert(m.objects[j].state == ObjectState::Targeted);
            }
            match m2.held {
                Some(k) => {
                    assert(m2.objects[k as int] == m.objects[k as int]);
                },
                None => {},
            }
            match m2.pulled {
                Some(k) => {
                    assert(m2.objects[k as int] == m.objects[k as int]);
                },
                None => {},
            }
        },
    }
}

/// The targeting pass preserves the singleton-slot invariant, given the
/// clear phase has emptied the targeted slot.
pub proof fn lemma_gesture_step_wf(
    m: WorldModel,
    hand: HandState,
    trigger: XrActionStateFloat,
    sweep_hit: Option<usize>,
)
    requires
        m.wf(),
        m.targeted is None,
        m.objects.len() <= usize::MAX,
    ensures
        gesture_step(m, hand, trigger, sweep_hit).wf(),
{
    let m2 = gesture_step(m, hand, trigger, sweep_hit);
    if !(m.held is Some || m.pulled is Some) {
        match sweep_hit {
            Some(i) => {
                if sweep_target_ok(m, hand, i) {
                    crate::objects::lemma_wf_one_object_change(m, m2, i as int);
                }
            },
            None => {},
        }
    }
}

/// The pull-resolution phase preserves the singleton-slot invariant.
pub proof fn lemma_pull_step_wf(m: WorldModel, hand: HandState, squeeze: XrActionStateFloat)
    requires
        m.wf(),
        m.objects.len() <= usize::MAX,
    ensures
        pull_step(m, hand, squeeze).wf(),
{
    let m2 = pull_step(m, hand, squeeze);
    match m.pulled {
        Some(i) => {
            crate::objects::lemma_wf_one_object_change(m, m2, i as int);
        },
        None => {},
    }
}

/// The swept object turned `Pulled`: its vertical velocity is matched to
/// the hand's vertical velocity.
pub open spec fn pulled_object(o: InteractableObject, hand: HandState) -> InteractableObject {
    InteractableObject {
        state: ObjectState::Pulled,
        velocity: Vec3Fx { y: hand.velocity.y, ..o.velocity },
        ..o
    }
}

/// Is the sweep hit an object the targeting pass may act on: a valid
/// index, eligible, free, and within the squared targeting range of the
/// hand?
pub open spec fn sweep_target_ok(m: WorldModel, hand: HandState, i: usize) -> bool {
    &&& (i as int) < m.objects.len()
    &&& m.objects[i as int].grabbable
    &&& m.objects[i as int].state is Free
    &&& dist_sq_spec(hand.pose.position, m.objects[i as int].position) <= TARGET_RANGE_SQ
}

/// The targeting pass: run only while nothing is held and nothing is
/// pulled. A free eligible object hit by the sweep within range becomes
/// `Targeted`; if the trigger edge fires this very tick it becomes `Pulled`
/// instead, with its vertical velocity matched to the hand's.
pub open spec fn gesture_step(
    m: WorldModel,
    hand: HandState,
    trigger: XrActionStateFloat,
    sweep_hit: Option<usize>,
) -> WorldModel {
    if m.held is Some || m.pulled is Some {
        m
    } else {
        match sweep_hit {
            Some(i) => if sweep_target_ok(m, hand, i) {
                if trigger.pressed {
                    WorldModel {
                        objects: m.objects.update(i as int, pulled_object(m.objects[i as int], hand)),
                        pulled: Some(i),
                        ..m
                    }
                } else {
                    WorldModel {
                        objects: m.objects.update(
                            i as int,
                            InteractableObject {
                                state: ObjectState::Targeted,
                                ..m.objects[i as int]
                            },
                        ),
                        targeted: Some(i),
                        ..m
                    }
                }
            } else {
                m
            },
            None => m,
        }
    }
}

/// Evaluates the targeting sweep result for this tick. The clear phase
/// must already have run: the targeted slot is empty when the pass starts.
pub fn gesture(
    world: &mut InteractionWorld,
    hand: &HandState,
    trigger: &XrActionStateFloat,
    sweep_hit: Option<usize>,
)
    requires
        old(world)@.wf(),
        old(world)@.targeted is None,
        hand.pose.position.in_range(OBJ_POS_LIMIT as int),
        ({
            match sweep_hit {
                Some(i) => (i as int) < old(world)@.objects.len() ==> old(
                    world,
                )@.objects[i as int].position.in_range(OBJ_POS_LIMIT as int),
                None => true,
            }
        }),
    ensures
        final(world)@ == gesture_step(old(world)@, *hand, *trigger, sweep_hit),
        final(world)@.wf(),
{
    if world.held.is_some() || world.pulled.is_some() {
        return ;
    }
    match sweep_hit {
        Some(i) => {
            if i < world.objects.len() {
                let o = world.objects[i];
                if o.grabbable && o.state == ObjectState::Free {
                    let dsq = dist_sq(&hand.pose.position, &o.position);
                    if dsq <= TARGET_RANGE_SQ {
                        if trigger.pressed {
                            world.objects.set(
                                i,
                                InteractableObject {
                                    state: ObjectState::Pulled,
                                    velocity: Vec3Fx { y: hand.velocity.y, ..o.velocity },
                                    ..o
                                },
                            );
                            world.pulled = Some(i);
                            proof {
                                vstd::std_specs::vec::axiom_spec_len(&world.objects);
                                crate::objects::lemma_wf_one_object_change(
                                    old(world)@,
                                    world@,
                                    i as int,
                                );
                            }
                        } else {
                            world.objects.set(
                                i,
                                InteractableObject { state: ObjectState::Targeted, ..o },
                            );
                            world.targeted = Some(i);
                            proof {
                                vstd::std_specs::vec::axiom_spec_len(&world.objects);
                                crate::objects::lemma_wf_one_object_change(
                                    old(world)@,
                                    world@,
                                    i as int,
                                );
                            }
                        }
                    }
                }
            }
        },
        None => {},
    }
}

/// The pull-resolution phase. While the squeeze is held the pulled object
/// follows the hand's velocity; once that velocity's squared magnitude
/// exceeds the launch threshold the object is flung with the ballistic
/// solve and freed. Releasing the squeeze frees the object with its
/// velocity untouched.
pub open spec fn pull_step(m: WorldModel, hand: HandState, squeeze: XrActionStateFloat) -> WorldModel {
    match m.pulled {
        Some(i) => {
            let o = m.objects[i as int];
            if squeeze.cur_val > 0 {
                if norm_sq_spec(hand.velocity) > PULL_SPEED_SQ {
                    WorldModel {
                        objects: m.objects.update(
                            i as int,
                            InteractableObject {
                                state: ObjectState::Free,
                                velocity: launch_velocity_spec(hand.pose.position, o.position),
                                ..o
                            },
                        ),
                        pulled: None,
                        ..m
                    }
                } else {
                    WorldModel {
                        objects: m.objects.update(
                            i as int,
                            InteractableObject { velocity: hand.velocity, ..o },
                        ),
                        ..m
                    }
                }
            } else {
                WorldModel {
                    objects: m.objects.update(
                        i as int,
                        InteractableObject { state: ObjectState::Free, ..o },
                    ),
                    pulled: None,
                    ..m
                }
            }
        },
        None => m,
    }
}

/// Resolves the pull for whichever object is currently `Pulled`.
pub fn gravity_grabbing(world: &mut InteractionWorld, hand: &HandState, squeeze: &XrActionStateFloat)
    requires
        old(world)@.wf(),
        hand.pose.position.in_range(LAUNCH_ARG_LIMIT as int),
        hand.velocity.in_range(crate::fixed::NORM_ARG_LIMIT as int),
        ({
            match old(world)@.pulled {
                Some(i) => old(world)@.objects[i as int].position.in_range(
                    LAUNCH_ARG_LIMIT as int,
                ),
                None => true,
            }
        }),
    ensures
        final(world)@ == pull_step(old(world)@, *hand, *squeeze),
        final(world)@.wf(),
{
    match world.pulled {
        Some(i) => {
            let o = world.objects[i];
            if squeeze.cur_val > 0 {
                let speed_sq = norm_sq(&hand.velocity);
                if speed_sq > PULL_SPEED_SQ {
                    let obj_pose = PoseFx { position: o.position, orientation: o.rotation };
                    let vel = compute_launch_velocity(&hand.pose, &obj_pose);
                    world.objects.set(
                        i,
                        InteractableObject {
                            state: ObjectState::Free,
                            velocity: vel,
                            ..o
                        },
                    );
                    world.pulled = None;
                } else {
                    world.objects.set(i, InteractableObject { velocity: hand.velocity, ..o });
                }
            } else {
                world.objects.set(i, InteractableObject { state: ObjectState::Free, ..o });
                world.pulled = None;
            }
            proof {
                vstd::std_specs::vec::axiom_spec_len(&world.objects);
                crate::objects::lemma_wf_one_object_change(old(world)@, world@, i as int);
            }
        },
        None => {},
    }
}

/// On flat ground the solve reduces to the standard projectile range
/// relation `v^2 = g * d / sin(2 * 60 degrees)`: with no height difference
/// the squared launch speed is exactly `g * d / sin(120)` in fixed point.
pub proof fn lemma_launch_flat_ground(hand: Vec3Fx, obj: Vec3Fx)
    requires
        hand.y == obj.y,
        launch_dxz(hand, obj) > 0,
    ensures
        launch_v2(hand, obj) == 2 * (GRAVITY_MILLI as int) * (MILLI as int) * launch_dxz(
            hand,
            obj,
        ) / (SQRT3_MILLI as int),
        launch_v2(hand, obj) == (GRAVITY_MILLI as int) * (MILLI as int) * launch_dxz(hand, obj)
            / (SIN60_MILLI as int),
{
    let d = launch_dxz(hand, obj);
    let sq3: int = SQRT3_MILLI as int;
    let s60: int = SIN60_MILLI as int;
    let g2: int = 2 * (GRAVITY_MILLI as int) * (MILLI as int);
    let g1: int = (GRAVITY_MILLI as int) * (MILLI as int);
    assert(launch_den(hand, obj) == sq3 * d);
    assert(g2 * d >= 0) by (nonlinear_arith)
        requires d > 0, g2 == 19_620_000,
    ;
    assert(launch_v2(hand, obj) == tdiv(g2 * d * d, sq3 * d));
    assert(g2 * d * d >= 0 && sq3 * d > 0) by (nonlinear_arith)
        requires d > 0, g2 == 19_620_000, sq3 == 1732,
    ;
    assert(tdiv(g2 * d * d, sq3 * d) == (g2 * d * d) / (sq3 * d));
    assert((g2 * d) * d == g2 * d * d) by (nonlinear_arith);
    lemma_div_mul_cancel(g2 * d, sq3, d);
    assert(launch_v2(hand, obj) == (g2 * d) / sq3);
    // halve numerator and denominator: 2 * (g * MILLI * d) over 2 * sin(60)
    assert(g2 * d == (g1 * d) * 2) by (nonlinear_arith)
        requires g2 == 2 * g1,
    ;
    lemma_div_mul_cancel(g1 * d, s60, 2);
    assert(g1 * d >= 0) by (nonlinear_arith)
        requires d > 0, g1 == 9_810_000,
    ;
    assert(launch_v2(hand, obj) == (g1 * d) / s60);
}

} // verus!
