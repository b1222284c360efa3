//! The grab/hold state machine.
//!
//! At most one object system-wide is held. Releasing has priority: while an
//! object is held and the trigger is inactive, the object is detached at its
//! current world transform, physics takes it back, and it inherits the
//! hand's velocity as throw momentum. Otherwise, on a trigger edge, the
//! nearest free eligible object among those overlapping the grab box is
//! repositioned into a fixed grip offset, taken out of the simulation, and
//! held. Nearest-to-the-hand is the deterministic tie-break when several
//! objects overlap the box at once.

use vstd::prelude::*;
use crate::actions::XrActionStateFloat;
use crate::fixed::{
    dist_sq, dist_sq_spec, quat_rotate, quat_rotate_math, QuatFx, Vec3Fx, COORD_LIMIT, MILLI,
    QUAT_LIMIT, ROT_ARG_LIMIT,
};
use crate::objects::{
    lemma_exclusive_state, lemma_wf_one_object_change, HandState, InteractableObject,
    InteractionWorld, ObjectState, WorldModel, OBJ_POS_LIMIT,
};

verus! {

/// The small ergonomic nudge of the grip offset (0.025 units).
pub const GRIP_NUDGE: i64 = 25;

/// A released object: back in `Free` state, decoupled from the hand at its
/// current world transform (the hand pose composed with the hand-local grip
/// transform), simulated again, and thrown with the hand's velocity.
pub open spec fn released_object(o: InteractableObject, hand: HandState) -> InteractableObject {
    let rot = quat_rotate_math(hand.pose.orientation, o.position);
    InteractableObject {
        state: ObjectState::Free,
        position: Vec3Fx {
            x: (hand.pose.position.x + rot.0) as i64,
            y: (hand.pose.position.y + rot.1) as i64,
            z: (hand.pose.position.z + rot.2) as i64,
        },
        rotation: hand.pose.orientation,
        velocity: hand.velocity,
        physics_enabled: true,
        ..o
    }
}

/// A grabbed object: held, hand-local, one bounding-box corner aligned
/// near the grip point, rotation reset, and taken out of the simulation.
pub open spec fn grip_object(o: InteractableObject) -> InteractableObject {
    InteractableObject {
        state: ObjectState::Held,
        position: Vec3Fx {
            x: (-o.half_extents.x - GRIP_NUDGE) as i64,
            y: 0,
            z: (-o.half_extents.z) as i64,
        },
        rotation: QuatFx { x: 0, y: 0, z: 0, w: MILLI as i64 },
        physics_enabled: false,
        ..o
    }
}

/// May this overlap-query hit be grabbed: a valid index naming a free,
/// eligible object?
pub open spec fn grab_candidate_ok(m: WorldModel, j: usize) -> bool {
    &&& (j as int) < m.objects.len()
    &&& m.objects[j as int].state is Free
    &&& m.objects[j as int].grabbable
}

/// The better of a candidate and the best seen so far: candidates that
/// cannot be grabbed are skipped, and a strictly smaller squared distance
/// to the hand wins, so of equally near objects the earlier one is kept.
pub open spec fn better_candidate(
    m: WorldModel,
    hand: HandState,
    j: usize,
    cur: Option<usize>,
) -> Option<usize> {
    if !grab_candidate_ok(m, j) {
        cur
    } else {
        match cur {
            None => Some(j),
            Some(b) => if dist_sq_spec(hand.pose.position, m.objects[j as int].position)
                < dist_sq_spec(hand.pose.position, m.objects[b as int].position) {
                Some(j)
            } else {
                Some(b)
            },
        }
    }
}

/// The deterministic pick among the overlap hits: the free eligible object
/// nearest to the hand, earliest index on ties.
pub open spec fn best_candidate(m: WorldModel, hand: HandState, ov: Seq<usize>) -> Option<usize>
    decreases ov.len(),
{
    if ov.len() == 0 {
        None
    } else {
        better_candidate(m, hand, ov.last(), best_candidate(m, hand, ov.drop_last()))
    }
}

/// The best candidate can be grabbed.
pub proof fn lemma_best_candidate_ok(m: WorldModel, hand: HandState, ov: Seq<usize>)
    ensures
        match best_candidate(m, hand, ov) {
            Some(b) => grab_candidate_ok(m, b),
            None => true,
        },
    decreases ov.len(),
{
    if ov.len() > 0 {
        lemma_best_candidate_ok(m, hand, ov.drop_last());
    }
}

/// One tick of the grab machine. Release takes priority over grabbing and
/// both never happen in the same tick.
pub open spec fn grab_step(
    m: WorldModel,
    hand: HandState,
    trigger: XrActionStateFloat,
    overlaps: Seq<usize>,
) -> WorldModel {
    match m.held {
        Some(i) => if trigger.cur_val <= 0 {
            WorldModel {
                objects: m.objects.update(i as int, released_object(m.objects[i as int], hand)),
                held: None,
                ..m
            }
        } else {
            m
        },
        None => if trigger.pressed {
            match best_candidate(m, hand, overlaps) {
                Some(b) => WorldModel {
                    objects: m.objects.update(b as int, grip_object(m.objects[b as int])),
                    held: Some(b),
                    ..m
                },
                None => m,
            }
        } else {
            m
        },
    }
}

/// Evaluates the grab machine for this tick against the overlap-query
/// result.
pub fn grab(
    world: &mut InteractionWorld,
    hand: &HandState,
    trigger: &XrActionStateFloat,
    overlaps: &Vec<usize>,
)
    requires
        old(world)@.wf(),
        hand.pose.position.in_range(OBJ_POS_LIMIT as int),
        hand.pose.orientation.in_range(QUAT_LIMIT as int),
        (old(world)@.held matches Some(i) ==> old(world)@.objects[i as int].position.in_range(
            ROT_ARG_LIMIT as int,
        )),
        forall|k: int|
            0 <= k < overlaps@.len() && (#[trigger] overlaps@[k] as int) < old(
                world,
            )@.objects.len() ==> old(world)@.objects[overlaps@[k] as int].position.in_range(
                OBJ_POS_LIMIT as int,
            ) && old(world)@.objects[overlaps@[k] as int].half_extents.in_range(
                COORD_LIMIT as int,
            ),
    ensures
        final(world)@ == grab_step(old(world)@, *hand, *trigger, overlaps@),
        final(world)@.wf(),
{
    let ghost m = old(world)@;
    match world.held {
        Some(i) => {
            if trigger.cur_val <= 0 {
                let o = world.objects[i];
                let rot = quat_rotate(&hand.pose.orientation, &o.position);
                world.objects.set(
                    i,
                    InteractableObject {
                        state: ObjectState::Free,
                        position: Vec3Fx {
                            x: hand.pose.position.x + rot.x,
                            y: hand.pose.position.y + rot.y,
                            z: hand.pose.position.z + rot.z,
                        },
                        rotation: hand.pose.orientation,
                        velocity: hand.velocity,
                        physics_enabled: true,
                        ..o
                    },
                );
                world.held = None;
                proof {
                    vstd::std_specs::vec::axiom_spec_len(&world.objects);
                    lemma_wf_one_object_change(m, world@, i as int);
                }
            }
        },
        None => {
            if trigger.pressed {
                let mut best: Option<usize> = None;
                let n: usize = overlaps.len();
                let mut k: usize = 0;
                while k < n
                    invariant
                        world@ == m,
                        m.wf(),
                        n == overlaps@.len(),
                        k <= n,
                        hand.pose.position.in_range(OBJ_POS_LIMIT as int),
                        forall|kk: int|
                            0 <= kk < overlaps@.len() && (#[trigger] overlaps@[kk] as int)
                                < m.objects.len() ==> m.objects[overlaps@[kk] as int
                            ].position.in_range(OBJ_POS_LIMIT as int)
                                && m.objects[overlaps@[kk] as int].half_extents.in_range(
                                COORD_LIMIT as int,
                            ),
                        best == best_candidate(m, *hand, overlaps@.take(k as int)),
                        (best matches Some(b) ==> grab_candidate_ok(m, b)
                            && m.objects[b as int].position.in_range(OBJ_POS_LIMIT as int)
                            && m.objects[b as int].half_extents.in_range(COORD_LIMIT as int)),
                    decreases n - k,
                {
                    let j = overlaps[k];
                    if j < world.objects.len() {
                        let o = world.objects[j];
                        if o.grabbable && o.state == ObjectState::Free {
                            match best {
                                None => {
                                    best = Some(j);
                                },
                                Some(b) => {
                                    let ob = world.objects[b];
                                    let db = dist_sq(&hand.pose.position, &ob.position);
                                    let dj = dist_sq(&hand.pose.position, &o.position);
                                    if dj < db {
                                        best = Some(j);
                                    }
                                },
                            }
                        }
                    }
                    k = k + 1;
                    proof {
                        assert(overlaps@.take(k as int).drop_last() =~= overlaps@.take(
                            k as int - 1,
                        ));
                        assert(overlaps@.take(k as int).last() == overlaps@[k as int - 1]);
                    }
                }
                proof {
                    assert(overlaps@.take(n as int) =~= overlaps@);
                }
                match best {
                    Some(b) => {
                        let o = world.objects[b];
                        world.objects.set(
                            b,
                            InteractableObject {
                                state: ObjectState::Held,
                                position: Vec3Fx {
                                    x: -o.half_extents.x - GRIP_NUDGE,
                                    y: 0,
                                    z: -o.half_extents.z,
                                },
                                rotation: QuatFx { x: 0, y: 0, z: 0, w: MILLI },
                                physics_enabled: false,
                                ..o
                            },
                        );
                        world.held = Some(b);
                        proof {
                            vstd::std_specs::vec::axiom_spec_len(&world.objects);
                            lemma_wf_one_object_change(m, world@, b as int);
                        }
                    },
                    None => {},
                }
            }
        },
    }
}

/// The step function preserves well-formedness.
pub proof fn lemma_grab_step_wf(
    m: WorldModel,
    hand: HandState,
    trigger: XrActionStateFloat,
    overlaps: Seq<usize>,
)
    requires
        m.wf(),
        m.objects.len() <= usize::MAX,
    ensures
        grab_step(m, hand, trigger, overlaps).wf(),
{
    let m2 = grab_step(m, hand, trigger, overlaps);
    match m.held {
        Some(i) => {
            if trigger.cur_val <= 0 {
                lemma_wf_one_object_change(m, m2, i as int);
            }
        },
        None => {
            if trigger.pressed {
                lemma_best_candidate_ok(m, hand, overlaps);
                match best_candidate(m, hand, overlaps) {
                    Some(b) => {
                        lemma_wf_one_object_change(m, m2, b as int);
                    },
                    None => {},
                }
            }
        },
    }
}

/// Releasing imparts throw momentum: with a held object and the trigger
/// inactive, after the grab machine runs the object's velocity equals the
/// hand's velocity exactly, and it is `Free` again with physics re-enabled.
pub proof fn lemma_release_velocity(
    m: WorldModel,
    hand: HandState,
    trigger: XrActionStateFloat,
    overlaps: Seq<usize>,
    i: usize,
)
    requires
        m.wf(),
        m.held == Some(i),
        trigger.cur_val <= 0,
    ensures
        ({
            let m2 = grab_step(m, hand, trigger, overlaps);
            &&& m2.objects[i as int].velocity == hand.velocity
            &&& m2.objects[i as int].state is Free
            &&& m2.objects[i as int].physics_enabled
            &&& m2.held is None
        }),
{
}

/// However many free objects overlap the grab box on an edge press, at
/// most one object ends up held: any two held objects after the step are
/// the same object.
pub proof fn lemma_grab_exclusive(
    m: WorldModel,
    hand: HandState,
    trigger: XrActionStateFloat,
    overlaps: Seq<usize>,
    i: int,
    j: int,
)
    requires
        m.wf(),
        m.objects.len() <= usize::MAX,
        0 <= i < m.objects.len(),
        0 <= j < m.objects.len(),
        grab_step(m, hand, trigger, overlaps).objects[i].state is Held,
        grab_step(m, hand, trigger, overlaps).objects[j].state is Held,
    ensures
        i == j,
{
    lemma_grab_step_wf(m, hand, trigger, overlaps);
    lemma_exclusive_state(grab_step(m, hand, trigger, overlaps), i, j);
}

} // verus!
