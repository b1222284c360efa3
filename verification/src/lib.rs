//! Hand-controller driven object interaction: grabbing nearby objects,
//! holding and releasing them with throw momentum, and remotely pulling
//! distant objects toward the hand with a ballistic launch ("gravity grab").
//!
//! All geometry is carried in fixed-point milli-units (one unit = 1000),
//! so every rule of the interaction state machines is checked by Verus.
//! The physics engine, the device tracking layer and the action binding
//! layer are external collaborators: their query results enter the library
//! as plain values.

pub mod actions;
pub mod fixed;
pub mod grab;
pub mod gravity_grab;
pub mod objects;
pub mod tracking;

use vstd::prelude::*;
use crate::actions::{
    find_index, ActionError, XrAction, XrActionState, XrActionStateFloat, XrActionType, XrInput,
};
use crate::fixed::{COORD_LIMIT, NORM_ARG_LIMIT, QUAT_LIMIT};
use crate::grab::{grab, grab_step};
use crate::gravity_grab::{cleared, gesture, gesture_step, gravity_grabbing, outlines, pull_step};
use crate::objects::{HandState, InteractionWorld, WorldModel, OBJ_POS_LIMIT};

verus! {

/// Which named action feeds each machine, one pair (trigger action, pose
/// action) per hand side; the machines read the first pair.
pub struct XrUtilsConfig {
    /// The squeeze and pose actions that drive the gravity-grab pull.
    pub gravity_grab_action_names: Vec<(XrAction, XrAction)>,
    /// The trigger and pose actions that drive grabbing and targeting.
    pub grab_action_names: Vec<(XrAction, XrAction)>,
}

/// One configured action pair: a float trigger and a pose, both identified
/// by name.
pub open spec fn action_pair_is(p: (XrAction, XrAction), trig: Seq<char>, pose: Seq<char>) -> bool {
    &&& p.0.name@ == trig
    &&& p.0.pretty_name@ == trig
    &&& p.0.action_type is Float
    &&& p.1.name@ == pose
    &&& p.1.pretty_name@ == pose
    &&& p.1.action_type is Pose
}

impl Default for XrUtilsConfig {
    /// Both machines default to the squeeze trigger and grip pose, right
    /// hand first.
    fn default() -> (r: Self)
        ensures
            r.gravity_grab_action_names@.len() == 2,
            action_pair_is(r.gravity_grab_action_names@[0], "right_squeeze"@, "right_pose"@),
            action_pair_is(r.gravity_grab_action_names@[1], "left_squeeze"@, "left_pose"@),
            r.grab_action_names@.len() == 2,
            action_pair_is(r.grab_action_names@[0], "right_squeeze"@, "right_pose"@),
            action_pair_is(r.grab_action_names@[1], "left_squeeze"@, "left_pose"@),
    {
        Self {
            gravity_grab_action_names: vec![
                (
                    XrAction::from_string(&"right_squeeze".to_owned(), &XrActionType::Float),
                    XrAction::from_string(&"right_pose".to_owned(), &XrActionType::Pose),
                ),
                (
                    XrAction::from_string(&"left_squeeze".to_owned(), &XrActionType::Float),
                    XrAction::from_string(&"left_pose".to_owned(), &XrActionType::Pose),
                ),
            ],
            grab_action_names: vec![
                (
                    XrAction::from_string(&"right_squeeze".to_owned(), &XrActionType::Float),
                    XrAction::from_string(&"right_pose".to_owned(), &XrActionType::Pose),
                ),
                (
                    XrAction::from_string(&"left_squeeze".to_owned(), &XrActionType::Float),
                    XrAction::from_string(&"left_pose".to_owned(), &XrActionType::Pose),
                ),
            ],
        }
    }
}

/// The float sample the store resolves for an action, if the action is
/// registered under its name as a float action.
pub open spec fn resolved_float(store: XrInput, action: XrAction) -> Option<XrActionStateFloat> {
    let idx = find_index(store.actions@, action.name@);
    if idx == -1 {
        None
    } else {
        match store.samples@[idx] {
            XrActionState::Float(f) => if action.action_type is Float {
                Some(f)
            } else {
                None
            },
            _ => None,
        }
    }
}

/// The error a failed float resolution reports: an unknown name is
/// `ActionNotFound`, anything else is a kind mismatch.
pub open spec fn resolve_error(store: XrInput, action: XrAction) -> ActionError {
    if find_index(store.actions@, action.name@) == -1 {
        ActionError::ActionNotFound
    } else {
        ActionError::ActionKindMismatch
    }
}

/// One tick of the whole interaction pipeline over the world: clear the
/// transient targeting highlight, then — only with a tracked hand and both
/// trigger samples resolved — evaluate targeting, pull resolution and the
/// grab machine, in that order.
pub open spec fn tick_step(
    m: WorldModel,
    hand: Option<HandState>,
    grab_trig: Option<XrActionStateFloat>,
    squeeze: Option<XrActionStateFloat>,
    sweep_hit: Option<usize>,
    overlaps: Seq<usize>,
) -> WorldModel {
    let m1 = cleared(m);
    match (hand, grab_trig, squeeze) {
        (Some(h), Some(g), Some(s)) => grab_step(
            pull_step(gesture_step(m1, h, g, sweep_hit), h, s),
            h,
            g,
            overlaps,
        ),
        _ => m1,
    }
}

/// Runs one simulation tick: the clear phase, the three machines in their
/// load-bearing order, and the end-of-tick snapshot of the action store.
///
/// A missing hand or missing spatial query results are steady-state
/// conditions, not errors: the machines simply skip this tick. A trigger
/// action that is not registered, or registered under another kind, is a
/// configuration error: the machines skip and the error is reported, while
/// the clear phase and the store snapshot still run.
pub fn tick(
    world: &mut InteractionWorld,
    store: &mut XrInput,
    config: &XrUtilsConfig,
    hand: Option<&HandState>,
    sweep_hit: Option<usize>,
    overlaps: &Vec<usize>,
) -> (r: Result<(), ActionError>)
    requires
        old(world)@.wf(),
        old(store).wf(),
        config.grab_action_names@.len() > 0,
        config.gravity_grab_action_names@.len() > 0,
        (hand matches Some(h) ==> h.pose.position.in_range(OBJ_POS_LIMIT as int)
            && h.pose.orientation.in_range(QUAT_LIMIT as int) && h.velocity.in_range(
            NORM_ARG_LIMIT as int,
        )),
        forall|k: int|
            0 <= k < old(world)@.objects.len() ==> (#[trigger] old(
                world,
            )@.objects[k]).position.in_range(OBJ_POS_LIMIT as int) && old(
                world,
            )@.objects[k].half_extents.in_range(COORD_LIMIT as int),
    ensures
        final(world)@.wf(),
        final(world)@ == tick_step(
            old(world)@,
            match hand {
                Some(h) => Some(*h),
                None => None::<HandState>,
            },
            resolved_float(*old(store), config.grab_action_names@[0].0),
            resolved_float(*old(store), config.gravity_grab_action_names@[0].0),
            sweep_hit,
            overlaps@,
        ),
        final(store).wf(),
        final(store).actions@ == old(store).actions@,
        final(store).samples@.len() == old(store).samples@.len(),
        forall|i: int|
            0 <= i < final(store).samples@.len() ==> #[trigger] final(store).samples@[i]
                == crate::actions::advanced_sample(old(store).samples@[i]),
        ({
            let g = resolved_float(*old(store), config.grab_action_names@[0].0);
            let s = resolved_float(*old(store), config.gravity_grab_action_names@[0].0);
            match hand {
                None => r == Ok::<(), ActionError>(()),
                Some(_) => if g is None {
                    r == Err::<(), ActionError>(
                        resolve_error(*old(store), config.grab_action_names@[0].0),
                    )
                } else if s is None {
                    r == Err::<(), ActionError>(
                        resolve_error(*old(store), config.gravity_grab_action_names@[0].0),
                    )
                } else {
                    r == Ok::<(), ActionError>(())
                },
            }
        }),
{
    let ghost m0 = old(world)@;
    outlines(world);
    proof {
        assert forall|j: int|
            0 <= j < world@.objects.len() implies (#[trigger] world@.objects[j]).position
            == m0.objects[j].position && world@.objects[j].half_extents
            == m0.objects[j].half_extents by {}
    }
    let mut result: Result<(), ActionError> = Ok(());
    match hand {
        Some(h) => {
            let grab_action = &config.grab_action_names[0].0;
            let grab_sample: Option<XrActionStateFloat> = match store.sample(grab_action) {
                Ok(XrActionState::Float(f)) => Some(f),
                Ok(_) => {
                    result = Err(ActionError::ActionKindMismatch);
                    None
                },
                Err(e) => {
                    result = Err(e);
                    None
                },
            };
            match grab_sample {
                Some(gf) => {
                    let squeeze_action = &config.gravity_grab_action_names[0].0;
                    let squeeze_sample: Option<XrActionStateFloat> = match store.sample(
                        squeeze_action,
                    ) {
                        Ok(XrActionState::Float(f)) => Some(f),
                        Ok(_) => {
                            result = Err(ActionError::ActionKindMismatch);
                            None
                        },
                        Err(e) => {
                            result = Err(e);
                            None
                        },
                    };
                    match squeeze_sample {
                        Some(sf) => {
                            gesture(world, h, &gf, sweep_hit);
                            proof {
                                assert forall|j: int|
                                    0 <= j < world@.objects.len() implies (
                                #[trigger] world@.objects[j]).position == m0.objects[j].position
                                    && world@.objects[j].half_extents
                                    == m0.objects[j].half_extents by {}
                            }
                            gravity_grabbing(world, h, &sf);
                            proof {
                                assert forall|j: int|
                                    0 <= j < world@.objects.len() implies (
                                #[trigger] world@.objects[j]).position == m0.objects[j].position
                                    && world@.objects[j].half_extents
                                    == m0.objects[j].half_extents by {}
                            }
                            grab(world, h, &gf, overlaps);
                        },
                        None => {},
                    }
                },
                None => {},
            }
        },
        None => {},
    }
    store.advance_frame();
    result
}

/// Targeting never lags the sweep: after a tick, an object is `Targeted`
/// only if it is the object this tick's sweep hit. Whatever carried the
/// tag before the tick lost it in the clear phase.
pub proof fn lemma_targeted_fresh(
    m: WorldModel,
    hand: HandState,
    grab_trig: XrActionStateFloat,
    squeeze: XrActionStateFloat,
    sweep_hit: Option<usize>,
    overlaps: Seq<usize>,
    j: int,
)
    requires
        m.wf(),
        m.objects.len() <= usize::MAX,
        0 <= j < m.objects.len(),
        tick_step(
            m,
            Some(hand),
            Some(grab_trig),
            Some(squeeze),
            sweep_hit,
            overlaps,
        ).objects[j].state is Targeted,
    ensures
        sweep_hit == Some(j as usize),
{
    let m1 = cleared(m);
    let m2 = gesture_step(m1, hand, grab_trig, sweep_hit);
    let m3 = pull_step(m2, hand, squeeze);
    let m4 = grab_step(m3, hand, grab_trig, overlaps);
    crate::gravity_grab::lemma_cleared_wf(m);
    crate::gravity_grab::lemma_gesture_step_wf(m1, hand, grab_trig, sweep_hit);
    crate::gravity_grab::lemma_pull_step_wf(m2, hand, squeeze);
    crate::grab::lemma_best_candidate_ok(m3, hand, overlaps);
    assert(m1.objects.len() == m.objects.len());
    assert(m2.objects.len() == m.objects.len());
    assert(m3.objects.len() == m.objects.len());
    assert(!(m1.objects[j].state is Targeted));
    if m4.objects[j].state is Targeted {
        assert(m3.objects[j].state is Targeted);
    }
    if m3.objects[j].state is Targeted {
        assert(m2.objects[j].state is Targeted);
    }
    assert(m2.objects[j].state is Targeted);
    assert(sweep_hit == Some(j as usize));
}

} // verus!
