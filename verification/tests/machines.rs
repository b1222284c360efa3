use xr_utils::actions::{ActionError, XrActionStateFloat, XrActionValue, XrInput, XrAction, XrActionType};
use xr_utils::fixed::{PoseFx, QuatFx, Vec3Fx};
use xr_utils::grab::grab;
use xr_utils::gravity_grab::{gesture, gravity_grabbing, outlines};
use xr_utils::objects::{HandState, InteractableObject, InteractionWorld, ObjectState};
use xr_utils::{tick, XrUtilsConfig};

fn identity() -> QuatFx {
    QuatFx { x: 0, y: 0, z: 0, w: 1000 }
}

fn free_object(x: i64, y: i64, z: i64) -> InteractableObject {
    InteractableObject {
        grabbable: true,
        state: ObjectState::Free,
        position: Vec3Fx { x, y, z },
        rotation: identity(),
        velocity: Vec3Fx { x: 0, y: 0, z: 0 },
        half_extents: Vec3Fx { x: 100, y: 100, z: 100 },
        physics_enabled: true,
    }
}

fn hand_at(x: i64, y: i64, z: i64, vel: Vec3Fx) -> HandState {
    HandState {
        pose: PoseFx { position: Vec3Fx { x, y, z }, orientation: identity() },
        velocity: vel,
    }
}

fn still_hand() -> HandState {
    hand_at(0, 0, 0, Vec3Fx { x: 0, y: 0, z: 0 })
}

fn held_count(world: &InteractionWorld) -> usize {
    world.objects.iter().filter(|o| o.state == ObjectState::Held).count()
}

fn pulled_count(world: &InteractionWorld) -> usize {
    world.objects.iter().filter(|o| o.state == ObjectState::Pulled).count()
}

fn squeeze_store(initial: i64) -> XrInput {
    let mut store = XrInput::new();
    store.register(
        XrAction::from_string(&"right_squeeze".to_string(), &XrActionType::Float),
        XrActionValue::Float(initial),
    );
    store
}

fn squeeze_action() -> XrAction {
    XrAction::from_string(&"right_squeeze".to_string(), &XrActionType::Float)
}

#[test]
fn sweep_hit_targets_then_press_pulls() {
    // hand at the origin, a free eligible object two units away
    let mut world = InteractionWorld {
        objects: vec![free_object(2000, 0, 0)],
        held: None,
        pulled: None,
        targeted: None,
    };
    let mut store = squeeze_store(0);
    let config = XrUtilsConfig::default();
    let hand = still_hand();

    // the sweep hits, no press yet: the object is targeted for this tick
    let r = tick(&mut world, &mut store, &config, Some(&hand), Some(0), &vec![]);
    assert_eq!(r, Ok(()));
    assert_eq!(world.objects[0].state, ObjectState::Targeted);
    assert_eq!(world.targeted, Some(0));

    // the squeeze rises: the edge fires and the object becomes pulled,
    // its vertical velocity matched to the (stationary) hand
    store.record(&squeeze_action(), XrActionValue::Float(800)).unwrap();
    let r2 = tick(&mut world, &mut store, &config, Some(&hand), Some(0), &vec![]);
    assert_eq!(r2, Ok(()));
    assert_eq!(world.objects[0].state, ObjectState::Pulled);
    assert_eq!(world.pulled, Some(0));
    assert_eq!(world.objects[0].velocity.y, 0);
    assert_eq!(world.targeted, None);
    assert!(held_count(&world) <= 1 && pulled_count(&world) <= 1);
}

#[test]
fn sweep_miss_never_retains_last_ticks_target() {
    let mut obj = free_object(2000, 0, 0);
    obj.state = ObjectState::Targeted;
    let mut world = InteractionWorld {
        objects: vec![obj],
        held: None,
        pulled: None,
        targeted: Some(0),
    };
    let mut store = squeeze_store(0);
    let config = XrUtilsConfig::default();
    let hand = still_hand();
    let r = tick(&mut world, &mut store, &config, Some(&hand), None, &vec![]);
    assert_eq!(r, Ok(()));
    assert_eq!(world.objects[0].state, ObjectState::Free);
    assert_eq!(world.targeted, None);
}

#[test]
fn out_of_range_object_is_not_targeted() {
    // squared distance 25 units exceeds the targeting range of 5
    let mut world = InteractionWorld {
        objects: vec![free_object(5000, 0, 0)],
        held: None,
        pulled: None,
        targeted: None,
    };
    let hand = still_hand();
    let trigger = XrActionStateFloat { previous_val: 0, cur_val: 0, pressed: false };
    gesture(&mut world, &hand, &trigger, Some(0));
    assert_eq!(world.objects[0].state, ObjectState::Free);
    assert_eq!(world.targeted, None);
}

#[test]
fn pull_follows_hand_until_the_speed_threshold() {
    let mut obj = free_object(2000, 0, 0);
    obj.state = ObjectState::Pulled;
    let mut world = InteractionWorld {
        objects: vec![obj],
        held: None,
        pulled: Some(0),
        targeted: None,
    };
    let squeeze = XrActionStateFloat { previous_val: 500, cur_val: 800, pressed: false };

    // hand speed ramps: 0.0, 0.48 and exactly 0.5 units/s keep pulling
    for vel in [
        Vec3Fx { x: 0, y: 0, z: 0 },
        Vec3Fx { x: 0, y: 0, z: 480 },
        Vec3Fx { x: 0, y: 0, z: 500 },
    ] {
        let hand = hand_at(0, 0, 0, vel);
        gravity_grabbing(&mut world, &hand, &squeeze);
        assert_eq!(world.objects[0].state, ObjectState::Pulled);
        assert_eq!(world.objects[0].velocity, vel);
    }

    // 0.6 units/s exceeds the threshold: the object is flung with the
    // ballistic solve, not the raw hand velocity
    let fast = Vec3Fx { x: 0, y: 0, z: 600 };
    let hand = hand_at(0, 0, 0, fast);
    gravity_grabbing(&mut world, &hand, &squeeze);
    assert_eq!(world.objects[0].state, ObjectState::Free);
    assert_eq!(world.pulled, None);
    assert_ne!(world.objects[0].velocity, fast);
    assert_eq!(world.objects[0].velocity, Vec3Fx { x: -2379, y: 4121, z: 0 });
    assert!(pulled_count(&world) == 0);
}

#[test]
fn releasing_the_squeeze_aborts_the_pull() {
    let mut obj = free_object(2000, 0, 0);
    obj.state = ObjectState::Pulled;
    obj.velocity = Vec3Fx { x: 7, y: 8, z: 9 };
    let mut world = InteractionWorld {
        objects: vec![obj],
        held: None,
        pulled: Some(0),
        targeted: None,
    };
    let squeeze = XrActionStateFloat { previous_val: 800, cur_val: 0, pressed: false };
    let hand = hand_at(0, 0, 0, Vec3Fx { x: 100, y: 100, z: 100 });
    gravity_grabbing(&mut world, &hand, &squeeze);
    assert_eq!(world.objects[0].state, ObjectState::Free);
    assert_eq!(world.pulled, None);
    // the velocity is left exactly as it was
    assert_eq!(world.objects[0].velocity, Vec3Fx { x: 7, y: 8, z: 9 });
}

#[test]
fn release_imparts_the_hand_velocity_exactly() {
    let mut obj = free_object(0, 0, 0);
    obj.state = ObjectState::Held;
    obj.position = Vec3Fx { x: -125, y: 0, z: -100 };
    obj.physics_enabled = false;
    let mut world = InteractionWorld {
        objects: vec![obj],
        held: Some(0),
        pulled: None,
        targeted: None,
    };
    let hand = hand_at(1000, 500, 0, Vec3Fx { x: 10, y: 20, z: 30 });
    let trigger = XrActionStateFloat { previous_val: 700, cur_val: 0, pressed: false };
    grab(&mut world, &hand, &trigger, &vec![]);
    assert_eq!(world.objects[0].state, ObjectState::Free);
    assert_eq!(world.held, None);
    assert_eq!(world.objects[0].velocity, Vec3Fx { x: 10, y: 20, z: 30 });
    assert!(world.objects[0].physics_enabled);
    // world transform: hand position plus the identity-rotated local offset
    assert_eq!(world.objects[0].position, Vec3Fx { x: 875, y: 500, z: -100 });
}

#[test]
fn holding_on_while_the_trigger_is_active() {
    let mut obj = free_object(0, 0, 0);
    obj.state = ObjectState::Held;
    let mut world = InteractionWorld {
        objects: vec![obj],
        held: Some(0),
        pulled: None,
        targeted: None,
    };
    let hand = still_hand();
    let trigger = XrActionStateFloat { previous_val: 700, cur_val: 800, pressed: false };
    grab(&mut world, &hand, &trigger, &vec![]);
    assert_eq!(world.objects[0].state, ObjectState::Held);
    assert_eq!(world.held, Some(0));
}

#[test]
fn edge_press_over_two_objects_grabs_exactly_the_nearer_one() {
    let mut world = InteractionWorld {
        objects: vec![free_object(1000, 0, 0), free_object(500, 0, 0)],
        held: None,
        pulled: None,
        targeted: None,
    };
    let hand = still_hand();
    let trigger = XrActionStateFloat { previous_val: 0, cur_val: 800, pressed: true };
    grab(&mut world, &hand, &trigger, &vec![0, 1]);
    assert_eq!(world.held, Some(1));
    assert_eq!(world.objects[1].state, ObjectState::Held);
    assert_eq!(world.objects[0].state, ObjectState::Free);
    assert_eq!(held_count(&world), 1);
    // the grabbed object sits at the grip offset, rotation reset, physics off
    assert_eq!(world.objects[1].position, Vec3Fx { x: -125, y: 0, z: -100 });
    assert_eq!(world.objects[1].rotation, identity());
    assert!(!world.objects[1].physics_enabled);
}

#[test]
fn no_grab_without_an_edge() {
    let mut world = InteractionWorld {
        objects: vec![free_object(500, 0, 0)],
        held: None,
        pulled: None,
        targeted: None,
    };
    let hand = still_hand();
    // active but not freshly pressed: the edge was consumed earlier
    let trigger = XrActionStateFloat { previous_val: 700, cur_val: 800, pressed: false };
    grab(&mut world, &hand, &trigger, &vec![0]);
    assert_eq!(world.held, None);
    assert_eq!(world.objects[0].state, ObjectState::Free);
}

#[test]
fn ineligible_objects_are_never_grabbed() {
    let mut inert = free_object(500, 0, 0);
    inert.grabbable = false;
    let mut world = InteractionWorld {
        objects: vec![inert],
        held: None,
        pulled: None,
        targeted: None,
    };
    let hand = still_hand();
    let trigger = XrActionStateFloat { previous_val: 0, cur_val: 800, pressed: true };
    grab(&mut world, &hand, &trigger, &vec![0]);
    assert_eq!(world.held, None);
    assert_eq!(world.objects[0].state, ObjectState::Free);
}

#[test]
fn targeting_pauses_while_an_object_is_held() {
    let mut held = free_object(0, 0, 0);
    held.state = ObjectState::Held;
    let mut world = InteractionWorld {
        objects: vec![held, free_object(2000, 0, 0)],
        held: Some(0),
        pulled: None,
        targeted: None,
    };
    let hand = still_hand();
    let trigger = XrActionStateFloat { previous_val: 0, cur_val: 800, pressed: true };
    gesture(&mut world, &hand, &trigger, Some(1));
    assert_eq!(world.objects[1].state, ObjectState::Free);
    assert_eq!(world.targeted, None);
    assert_eq!(world.pulled, None);
}

#[test]
fn clearing_frees_the_highlighted_object() {
    let mut obj = free_object(2000, 0, 0);
    obj.state = ObjectState::Targeted;
    let mut world = InteractionWorld {
        objects: vec![obj],
        held: None,
        pulled: None,
        targeted: Some(0),
    };
    outlines(&mut world);
    assert_eq!(world.objects[0].state, ObjectState::Free);
    assert_eq!(world.targeted, None);
}

#[test]
fn tick_without_a_hand_only_clears() {
    let mut obj = free_object(2000, 0, 0);
    obj.state = ObjectState::Targeted;
    let mut world = InteractionWorld {
        objects: vec![obj],
        held: None,
        pulled: None,
        targeted: Some(0),
    };
    let mut store = squeeze_store(0);
    let config = XrUtilsConfig::default();
    let r = tick(&mut world, &mut store, &config, None, Some(0), &vec![0]);
    assert_eq!(r, Ok(()));
    assert_eq!(world.objects[0].state, ObjectState::Free);
    assert_eq!(world.targeted, None);
}

#[test]
fn tick_reports_a_trigger_registered_under_another_kind() {
    let mut world = InteractionWorld {
        objects: vec![free_object(2000, 0, 0)],
        held: None,
        pulled: None,
        targeted: None,
    };
    let mut store = XrInput::new();
    store.register(
        XrAction::from_string(&"right_squeeze".to_string(), &XrActionType::Bool),
        XrActionValue::Bool(false),
    );
    let config = XrUtilsConfig::default();
    let hand = still_hand();
    let r = tick(&mut world, &mut store, &config, Some(&hand), Some(0), &vec![]);
    assert_eq!(r, Err(ActionError::ActionKindMismatch));
    assert_eq!(world.objects[0].state, ObjectState::Free);
}

#[test]
fn tick_reports_an_unregistered_trigger() {
    let mut world = InteractionWorld {
        objects: vec![free_object(2000, 0, 0)],
        held: None,
        pulled: None,
        targeted: None,
    };
    let mut store = XrInput::new();
    let config = XrUtilsConfig::default();
    let hand = still_hand();
    let r = tick(&mut world, &mut store, &config, Some(&hand), Some(0), &vec![]);
    assert_eq!(r, Err(ActionError::ActionNotFound));
    // the machines skipped: nothing was targeted
    assert_eq!(world.objects[0].state, ObjectState::Free);
    assert_eq!(world.targeted, None);
}
