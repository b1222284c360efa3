use xr_utils::actions::{
    ActionError, Config, XrAction, XrActionState, XrActionType, XrActionValue, XrInput,
};
use xr_utils::fixed::Vec2Fx;
use xr_utils::XrUtilsConfig;

fn float_action(name: &str) -> XrAction {
    XrAction::from_string(&name.to_string(), &XrActionType::Float)
}

#[test]
fn from_string_copies_name_into_pretty_name() {
    let a = XrAction::from_string(&"right_squeeze".to_string(), &XrActionType::Float);
    assert_eq!(a.name, "right_squeeze");
    assert_eq!(a.pretty_name, "right_squeeze");
    assert_eq!(a.action_type, XrActionType::Float);
}

#[test]
fn action_identity_is_the_name_alone() {
    let a = XrAction {
        name: "squeeze".to_string(),
        pretty_name: "Squeeze".to_string(),
        action_type: XrActionType::Float,
    };
    let b = XrAction::from_string(&"squeeze".to_string(), &XrActionType::Bool);
    assert!(a == b);
    let c = float_action("other");
    assert!(a != c);
}

#[test]
fn sample_unknown_name_is_not_found() {
    let store = XrInput::new();
    assert_eq!(store.sample(&float_action("missing")), Err(ActionError::ActionNotFound));
}

#[test]
fn sample_with_wrong_kind_is_a_mismatch() {
    let mut store = XrInput::new();
    store.register(float_action("squeeze"), XrActionValue::Float(0));
    let as_bool = XrAction::from_string(&"squeeze".to_string(), &XrActionType::Bool);
    assert_eq!(store.sample(&as_bool), Err(ActionError::ActionKindMismatch));
    let as_pose = XrAction::from_string(&"squeeze".to_string(), &XrActionType::Pose);
    assert_eq!(store.sample(&as_pose), Err(ActionError::ActionKindMismatch));
}

#[test]
fn register_starts_with_no_edge_and_no_previous_value() {
    let mut store = XrInput::new();
    store.register(float_action("squeeze"), XrActionValue::Float(700));
    match store.sample(&float_action("squeeze")) {
        Ok(XrActionState::Float(f)) => {
            assert_eq!(f.previous_val, 0);
            assert_eq!(f.cur_val, 700);
            assert!(!f.pressed);
        },
        other => panic!("unexpected sample {:?}", other),
    }
}

#[test]
fn register_same_name_replaces_the_sample() {
    let mut store = XrInput::new();
    store.register(float_action("squeeze"), XrActionValue::Float(700));
    store.register(float_action("squeeze"), XrActionValue::Float(100));
    assert_eq!(store.actions.len(), 1);
    match store.sample(&float_action("squeeze")) {
        Ok(XrActionState::Float(f)) => assert_eq!(f.cur_val, 100),
        other => panic!("unexpected sample {:?}", other),
    }
}

#[test]
fn float_edge_fires_on_rise_from_inactive() {
    let mut store = XrInput::new();
    store.register(float_action("squeeze"), XrActionValue::Float(0));
    store.record(&float_action("squeeze"), XrActionValue::Float(800)).unwrap();
    match store.sample(&float_action("squeeze")) {
        Ok(XrActionState::Float(f)) => {
            assert!(f.pressed);
            assert_eq!(f.previous_val, 0);
            assert_eq!(f.cur_val, 800);
        },
        other => panic!("unexpected sample {:?}", other),
    }
    // after the end-of-tick snapshot the same level no longer edges
    store.advance_frame();
    store.record(&float_action("squeeze"), XrActionValue::Float(900)).unwrap();
    match store.sample(&float_action("squeeze")) {
        Ok(XrActionState::Float(f)) => assert!(!f.pressed),
        other => panic!("unexpected sample {:?}", other),
    }
}

#[test]
fn record_with_wrong_kind_changes_nothing() {
    let mut store = XrInput::new();
    store.register(float_action("squeeze"), XrActionValue::Float(0));
    let r = store.record(&float_action("squeeze"), XrActionValue::Bool(true));
    assert_eq!(r, Err(ActionError::ActionKindMismatch));
    match store.sample(&float_action("squeeze")) {
        Ok(XrActionState::Float(f)) => assert_eq!(f.cur_val, 0),
        other => panic!("unexpected sample {:?}", other),
    }
    let r2 = store.record(&float_action("missing"), XrActionValue::Float(1));
    assert_eq!(r2, Err(ActionError::ActionNotFound));
}

#[test]
fn bool_edge_fires_on_rise_from_false() {
    let mut store = XrInput::new();
    let a = XrAction::from_string(&"click".to_string(), &XrActionType::Bool);
    store.register(a.clone(), XrActionValue::Bool(false));
    store.record(&a, XrActionValue::Bool(true)).unwrap();
    match store.sample(&a) {
        Ok(XrActionState::Bool(b)) => assert!(b.pressed),
        other => panic!("unexpected sample {:?}", other),
    }
}

#[test]
fn vec2_edges_are_per_axis() {
    let mut store = XrInput::new();
    let a = XrAction::from_string(&"stick".to_string(), &XrActionType::Vec2);
    store.register(a.clone(), XrActionValue::Vec2(Vec2Fx { x: 0, y: 300 }));
    store.advance_frame();
    // previous is now (0, 300): only the x axis can edge
    store.record(&a, XrActionValue::Vec2(Vec2Fx { x: -250, y: 500 })).unwrap();
    match store.sample(&a) {
        Ok(XrActionState::Vec2(v)) => {
            assert!(v.pressed_x);
            assert!(!v.pressed_y);
            assert_eq!(v.cur_val, Vec2Fx { x: -250, y: 500 });
        },
        other => panic!("unexpected sample {:?}", other),
    }
}

#[test]
fn advance_frame_twice_consumes_the_edge() {
    let mut store = XrInput::new();
    store.register(float_action("squeeze"), XrActionValue::Float(0));
    store.record(&float_action("squeeze"), XrActionValue::Float(1000)).unwrap();
    store.advance_frame();
    store.advance_frame();
    match store.sample(&float_action("squeeze")) {
        Ok(XrActionState::Float(f)) => {
            assert!(!f.pressed);
            assert_eq!(f.previous_val, 1000);
            assert_eq!(f.cur_val, 1000);
        },
        other => panic!("unexpected sample {:?}", other),
    }
}

#[test]
fn as_accessors_match_the_variant() {
    let f = XrActionState::Float(xr_utils::actions::XrActionStateFloat {
        previous_val: 1,
        cur_val: 2,
        pressed: false,
    });
    assert!(f.as_float().is_some());
    assert!(f.as_bool().is_none());
    assert!(f.as_vec2().is_none());
    let b = XrActionState::Bool(xr_utils::actions::XrActionStateBool {
        previous_val: false,
        cur_val: true,
        pressed: true,
    });
    assert!(b.as_bool().is_some());
    assert!(b.as_float().is_none());
}

#[test]
fn default_config_lists_the_touch_controller_bindings() {
    let c = Config::default();
    assert_eq!(c.bindings.len(), 6);
    assert_eq!(c.set_name, "mine");
    assert_eq!(c.set_pretty_name, "My set");
    assert_eq!(c.bindings[0].0.name, "right_pose");
    assert_eq!(c.bindings[0].0.pretty_name, "Right Hand Grip Pose");
    assert_eq!(c.bindings[0].0.action_type, XrActionType::Pose);
    assert_eq!(
        c.bindings[0].1.interaction_profile,
        "/interaction_profiles/oculus/touch_controller"
    );
    assert_eq!(c.bindings[0].1.binding, vec!["/user/hand/right/input/grip/pose".to_string()]);
    assert_eq!(c.bindings[4].0.name, "right_squeeze");
    assert_eq!(c.bindings[4].0.action_type, XrActionType::Float);
    assert_eq!(c.bindings[4].1.binding, vec!["/user/hand/right/input/squeeze/value".to_string()]);
    assert_eq!(c.bindings[5].0.name, "left_squeeze");
}

#[test]
fn default_machine_config_uses_squeeze_and_grip_pose() {
    let c = XrUtilsConfig::default();
    assert_eq!(c.grab_action_names.len(), 2);
    assert_eq!(c.gravity_grab_action_names.len(), 2);
    assert_eq!(c.grab_action_names[0].0.name, "right_squeeze");
    assert_eq!(c.grab_action_names[0].0.action_type, XrActionType::Float);
    assert_eq!(c.grab_action_names[0].1.name, "right_pose");
    assert_eq!(c.grab_action_names[0].1.action_type, XrActionType::Pose);
    assert_eq!(c.gravity_grab_action_names[1].0.name, "left_squeeze");
    assert_eq!(c.gravity_grab_action_names[1].1.name, "left_pose");
}
