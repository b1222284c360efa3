//! The action state store.
//!
//! Each logical input action (a squeeze trigger, a thumbstick, a pose) keeps
//! a previous and a current sampled value and a derived edge-triggered
//! "just pressed" flag. The device layer registers actions at startup,
//! records a fresh sample for each action once per tick, and the orchestrator
//! snapshots `previous = current` at the end of the tick.
//!
//! An action's identity is its name alone: two actions with the same name are
//! the same action, whatever their pretty-printed label, and lookups must
//! supply the kind the action was created with or they fail.

use vstd::prelude::*;
use crate::fixed::Vec2Fx;

verus! {

/// The kind of value an action carries.
#[derive(Clone, Copy, PartialEq, Eq, Structural, Debug)]
pub enum XrActionType {
    Float,
    Vec2,
    Bool,
    Pose,
}

/// A logical input action: a stable name, a pretty-printed label, and the
/// kind of value it carries.
#[derive(Clone, Debug)]
pub struct XrAction {
    pub name: String,
    pub pretty_name: String,
    pub action_type: XrActionType,
}

impl XrAction {
    /// Builds a lookup key: an action whose pretty name is just the name.
    pub fn from_string(string: &String, action_type: &XrActionType) -> (r: Self)
        ensures
            r.name@ == string@,
            r.pretty_name@ == string@,
            r.action_type == *action_type,
    {
        Self { name: string.clone(), pretty_name: string.clone(), action_type: *action_type }
    }
}

/// Identity is determined by the name alone.
impl PartialEq for XrAction {
    fn eq(&self, other: &Self) -> (r: bool) {
        self.name == other.name
    }
}

impl vstd::std_specs::cmp::PartialEqSpecImpl for XrAction {
    open spec fn obeys_eq_spec() -> bool {
        true
    }

    open spec fn eq_spec(&self, other: &XrAction) -> bool {
        self.name@ == other.name@
    }
}

impl Eq for XrAction {}

/// How one action is bound to a physical control of one interaction
/// profile.
#[derive(Clone, Debug)]
pub struct XrBinding {
    pub interaction_profile: String,
    pub binding: Vec<String>,
}

/// The action-set configuration: the actions to create and their suggested
/// bindings.
#[derive(Clone, Debug)]
pub struct Config {
    pub bindings: Vec<(XrAction, XrBinding)>,
    pub set_name: String,
    pub set_pretty_name: String,
}

/// One configured binding entry: the action's identity and the single
/// suggested path under the touch-controller profile.
pub open spec fn binding_entry_is(
    e: (XrAction, XrBinding),
    name: Seq<char>,
    pretty: Seq<char>,
    t: XrActionType,
    path: Seq<char>,
) -> bool {
    &&& e.0.name@ == name
    &&& e.0.pretty_name@ == pretty
    &&& e.0.action_type == t
    &&& e.1.interaction_profile@ == "/interaction_profiles/oculus/touch_controller"@
    &&& e.1.binding@.len() == 1
    &&& e.1.binding@[0]@ == path
}

impl Default for Config {
    /// The default set: grip poses, thumbsticks and squeeze values for both
    /// hands of the touch controller.
    fn default() -> (r: Self)
        ensures
            r.bindings@.len() == 6,
            binding_entry_is(
                r.bindings@[0],
                "right_pose"@,
                "Right Hand Grip Pose"@,
                XrActionType::Pose,
                "/user/hand/right/input/grip/pose"@,
            ),
            binding_entry_is(
                r.bindings@[1],
                "left_pose"@,
                "Left Hand Grip Pose"@,
                XrActionType::Pose,
                "/user/hand/left/input/grip/pose"@,
            ),
            binding_entry_is(
                r.bindings@[2],
                "left_joystick"@,
                "Left Hand JoyStick"@,
                XrActionType::Vec2,
                "/user/hand/left/input/thumbstick"@,
            ),
            binding_entry_is(
                r.bindings@[3],
                "right_joystick"@,
                "Right Hand JoyStick"@,
                XrActionType::Vec2,
                "/user/hand/right/input/thumbstick"@,
            ),
            binding_entry_is(
                r.bindings@[4],
                "right_squeeze"@,
                "Right Hand Squeeze"@,
                XrActionType::Float,
                "/user/hand/right/input/squeeze/value"@,
            ),
            binding_entry_is(
                r.bindings@[5],
                "left_squeeze"@,
                "Left Hand Squeeze"@,
                XrActionType::Float,
                "/user/hand/left/input/squeeze/value"@,
            ),
            r.set_name@ == "mine"@,
            r.set_pretty_name@ == "My set"@,
    {
        Self {
            bindings: vec![
                (
                    XrAction {
                        name: "right_pose".to_owned(),
                        pretty_name: "Right Hand Grip Pose".to_owned(),
                        action_type: XrActionType::Pose,
                    },
                    XrBinding {
                        interaction_profile: "/interaction_profiles/oculus/touch_controller"
                            .to_owned(),
                        binding: vec!["/user/hand/right/input/grip/pose".to_owned()],
                    },
                ),
                (
                    XrAction {
                        name: "left_pose".to_owned(),
                        pretty_name: "Left Hand Grip Pose".to_owned(),
                        action_type: XrActionType::Pose,
                    },
                    XrBinding {
                        interaction_profile: "/interaction_profiles/oculus/touch_controller"
                            .to_owned(),
                        binding: vec!["/user/hand/left/input/grip/pose".to_owned()],
                    },
                ),
                (
                    XrAction {
                        name: "left_joystick".to_owned(),
                        pretty_name: "Left Hand JoyStick".to_owned(),
                        action_type: XrActionType::Vec2,
                    },
                    XrBinding {
                        interaction_profile: "/interaction_profiles/oculus/touch_controller"
                            .to_owned(),
                        binding: vec!["/user/hand/left/input/thumbstick".to_owned()],
                    },
                ),
                (
                    XrAction {
                        name: "right_joystick".to_owned(),
                        pretty_name: "Right Hand JoyStick".to_owned(),
                        action_type: XrActionType::Vec2,
                    },
                    XrBinding {
                        interaction_profile: "/interaction_profiles/oculus/touch_controller"
                            .to_owned(),
                        binding: vec!["/user/hand/right/input/thumbstick".to_owned()],
                    },
                ),
                (
                    XrAction {
                        name: "right_squeeze".to_owned(),
                        pretty_name: "Right Hand Squeeze".to_owned(),
                        action_type: XrActionType::Float,
                    },
                    XrBinding {
                        interaction_profile: "/interaction_profiles/oculus/touch_controller"
                            .to_owned(),
                        binding: vec!["/user/hand/right/input/squeeze/value".to_owned()],
                    },
                ),
                (
                    XrAction {
                        name: "left_squeeze".to_owned(),
                        pretty_name: "Left Hand Squeeze".to_owned(),
                        action_type: XrActionType::Float,
                    },
                    XrBinding {
                        interaction_profile: "/interaction_profiles/oculus/touch_controller"
                            .to_owned(),
                        binding: vec!["/user/hand/left/input/squeeze/value".to_owned()],
                    },
                ),
            ],
            set_name: "mine".to_owned(),
            set_pretty_name: "My set".to_owned(),
        }
    }
}

/// The sample state of a float-valued action, value in milli-units.
#[derive(Clone, Copy, PartialEq, Eq, Structural, Debug)]
pub struct XrActionStateFloat {
    pub previous_val: i64,
    pub cur_val: i64,
    pub pressed: bool,
}

/// The sample state of a boolean action.
#[derive(Clone, Copy, PartialEq, Eq, Structural, Debug)]
pub struct XrActionStateBool {
    pub previous_val: bool,
    pub cur_val: bool,
    pub pressed: bool,
}

/// The sample state of a planar action; each axis carries its own edge flag.
#[derive(Clone, Copy, PartialEq, Eq, Structural, Debug)]
pub struct XrActionStateVec2 {
    pub previous_val: Vec2Fx,
    pub cur_val: Vec2Fx,
    pub pressed_x: bool,
    pub pressed_y: bool,
}

/// The sample state of an action, tagged by kind.
#[derive(Clone, Copy, PartialEq, Eq, Structural, Debug)]
pub enum XrActionState {
    Float(XrActionStateFloat),
    Bool(XrActionStateBool),
    Vec2(XrActionStateVec2),
}

impl XrActionState {
    pub fn as_float(&self) -> (r: Option<XrActionStateFloat>)
        ensures
            r == (match *self {
                XrActionState::Float(x) => Some(x),
                _ => None::<XrActionStateFloat>,
            }),
    {
        match self {
            XrActionState::Float(x) => Some(*x),
            _ => None,
        }
    }

    pub fn as_bool(&self) -> (r: Option<XrActionStateBool>)
        ensures
            r == (match *self {
                XrActionState::Bool(x) => Some(x),
                _ => None::<XrActionStateBool>,
            }),
    {
        match self {
            XrActionState::Bool(x) => Some(*x),
            _ => None,
        }
    }

    pub fn as_vec2(&self) -> (r: Option<XrActionStateVec2>)
        ensures
            r == (match *self {
                XrActionState::Vec2(x) => Some(x),
                _ => None::<XrActionStateVec2>,
            }),
    {
        match self {
            XrActionState::Vec2(x) => Some(*x),
            _ => None,
        }
    }
}

/// A raw sampled value handed in by the device layer.
#[derive(Clone, Copy, PartialEq, Eq, Structural, Debug)]
pub enum XrActionValue {
    Float(i64),
    Bool(bool),
    Vec2(Vec2Fx),
}

/// Why a lookup or an update of the store failed.
#[derive(Clone, Copy, PartialEq, Eq, Structural, Debug)]
pub enum ActionError {
    /// The action was never registered.
    ActionNotFound,
    /// The stored kind differs from the kind the caller supplied.
    ActionKindMismatch,
}

/// Does a requested kind match a stored sample state?
pub open spec fn kind_matches(t: XrActionType, s: XrActionState) -> bool {
    match s {
        XrActionState::Float(_) => t is Float,
        XrActionState::Bool(_) => t is Bool,
        XrActionState::Vec2(_) => t is Vec2,
    }
}

/// Does a raw value match a stored sample state's kind?
pub open spec fn value_matches(v: XrActionValue, s: XrActionState) -> bool {
    match s {
        XrActionState::Float(_) => v is Float,
        XrActionState::Bool(_) => v is Bool,
        XrActionState::Vec2(_) => v is Vec2,
    }
}

/// The index of the first action with this name, or -1.
pub open spec fn find_index(s: Seq<XrAction>, name: Seq<char>) -> int
    decreases s.len(),
{
    if s.len() == 0 {
        -1
    } else if s[0].name@ == name {
        0
    } else {
        let r = find_index(s.drop_first(), name);
        if r == -1 {
            -1
        } else {
            r + 1
        }
    }
}

/// `find_index` is either -1 with no matching entry, or the first matching
/// index.
pub proof fn lemma_find_index(s: Seq<XrAction>, name: Seq<char>)
    ensures
        find_index(s, name) == -1 ==> forall|i: int| 0 <= i < s.len() ==> s[i].name@ != name,
        find_index(s, name) != -1 ==> {
            let r = find_index(s, name);
            &&& 0 <= r < s.len()
            &&& s[r].name@ == name
            &&& forall|i: int| 0 <= i < r ==> s[i].name@ != name
        },
    decreases s.len(),
{
    if s.len() > 0 && s[0].name@ != name {
        lemma_find_index(s.drop_first(), name);
        assert(forall|i: int| 1 <= i < s.len() ==> #[trigger] s[i] == s.drop_first()[i - 1]);
    }
}

/// The fresh sample created when an action is registered with an initial
/// value: no previous value, no edge.
pub open spec fn initial_sample(v: XrActionValue) -> XrActionState {
    match v {
        XrActionValue::Float(f) => XrActionState::Float(
            XrActionStateFloat { previous_val: 0, cur_val: f, pressed: false },
        ),
        XrActionValue::Bool(b) => XrActionState::Bool(
            XrActionStateBool { previous_val: false, cur_val: b, pressed: false },
        ),
        XrActionValue::Vec2(v2) => XrActionState::Vec2(
            XrActionStateVec2 {
                previous_val: Vec2Fx { x: 0, y: 0 },
                cur_val: v2,
                pressed_x: false,
                pressed_y: false,
            },
        ),
    }
}

/// The sample after the device layer records a new current value: the
/// previous value is kept and the edge flags are derived from it. A float
/// is pressed when it rises from inactive (at most zero) to active; a
/// boolean when it rises from false to true; each planar axis when it
/// leaves exactly zero.
pub open spec fn recorded_sample(s: XrActionState, v: XrActionValue) -> XrActionState {
    match (s, v) {
        (XrActionState::Float(f), XrActionValue::Float(nv)) => XrActionState::Float(
            XrActionStateFloat {
                previous_val: f.previous_val,
                cur_val: nv,
                pressed: f.previous_val <= 0 && nv > 0,
            },
        ),
        (XrActionState::Bool(b), XrActionValue::Bool(nv)) => XrActionState::Bool(
            XrActionStateBool {
                previous_val: b.previous_val,
                cur_val: nv,
                pressed: !b.previous_val && nv,
            },
        ),
        (XrActionState::Vec2(v2), XrActionValue::Vec2(nv)) => XrActionState::Vec2(
            XrActionStateVec2 {
                previous_val: v2.previous_val,
                cur_val: nv,
                pressed_x: v2.previous_val.x == 0 && nv.x != 0,
                pressed_y: v2.previous_val.y == 0 && nv.y != 0,
            },
        ),
        _ => s,
    }
}

/// The sample after the end-of-tick snapshot: the edge is evaluated one
/// last time against the previous value, then the current value becomes the
/// previous one. Advancing twice in a row therefore always clears the edge.
pub open spec fn advanced_sample(s: XrActionState) -> XrActionState {
    match s {
        XrActionState::Float(f) => XrActionState::Float(
            XrActionStateFloat {
                previous_val: f.cur_val,
                cur_val: f.cur_val,
                pressed: f.previous_val <= 0 && f.cur_val > 0,
            },
        ),
        XrActionState::Bool(b) => XrActionState::Bool(
            XrActionStateBool {
                previous_val: b.cur_val,
                cur_val: b.cur_val,
                pressed: !b.previous_val && b.cur_val,
            },
        ),
        XrActionState::Vec2(v2) => XrActionState::Vec2(
            XrActionStateVec2 {
                previous_val: v2.cur_val,
                cur_val: v2.cur_val,
                pressed_x: v2.previous_val.x == 0 && v2.cur_val.x != 0,
                pressed_y: v2.previous_val.y == 0 && v2.cur_val.y != 0,
            },
        ),
    }
}

/// No edge flag of the sample is set.
pub open spec fn no_edge(s: XrActionState) -> bool {
    match s {
        XrActionState::Float(f) => !f.pressed,
        XrActionState::Bool(b) => !b.pressed,
        XrActionState::Vec2(v2) => !v2.pressed_x && !v2.pressed_y,
    }
}

/// Advancing twice without an intervening sample yields no edge: the edge
/// was consumed by the first snapshot.
pub proof fn lemma_advance_twice_no_edge(s: XrActionState)
    ensures
        no_edge(advanced_sample(advanced_sample(s))),
{
}

/// The per-action sample store. Actions and their samples sit at matching
/// indices; the map-like lookup goes by name.
pub struct XrInput {
    pub actions: Vec<XrAction>,
    pub samples: Vec<XrActionState>,
}

impl XrInput {
    /// One sample per action, and no two actions share a name.
    pub open spec fn wf(self) -> bool {
        &&& self.actions@.len() == self.samples@.len()
        &&& forall|i: int, j: int|
            0 <= i < j < self.actions@.len() ==> self.actions@[i].name@ != self.actions@[j].name@
    }

    /// An empty store.
    pub fn new() -> (r: Self)
        ensures
            r.actions@.len() == 0,
            r.samples@.len() == 0,
            r.wf(),
    {
        XrInput { actions: Vec::new(), samples: Vec::new() }
    }

    /// Registers an action with the value first sampled for it. An action
    /// already registered under the same name keeps its key and starts over
    /// with a fresh sample.
    pub fn register(&mut self, action: XrAction, initial: XrActionValue)
        requires
            old(self).wf(),
        ensures
            final(self).wf(),
            ({
                let idx = find_index(old(self).actions@, action.name@);
                if idx == -1 {
                    final(self).actions@ == old(self).actions@.push(action) && final(self).samples@ == old(self).samples@.push(initial_sample(initial))
                } else {
                    final(self).actions@ == old(self).actions@ && final(self).samples@ == old(self).samples@.update(idx, initial_sample(initial))
                }
            }),
    {
        proof {
            lemma_find_index(self.actions@, action.name@);
        }
        let ghost idx = find_index(self.actions@, action.name@);
        let n: usize = self.actions.len();
        let mut i: usize = 0;
        while i < n
            invariant
                self == old(self),
                old(self).wf(),
                self.wf(),
                n == self.actions@.len(),
                i <= n,
                forall|k: int| 0 <= k < i ==> self.actions@[k].name@ != action.name@,
                idx == find_index(self.actions@, action.name@),
                idx == -1 ==> forall|k: int| 0 <= k < n ==> self.actions@[k].name@ != action.name@,
                idx != -1 ==> 0 <= idx < n && self.actions@[idx].name@ == action.name@ && forall|
                    k: int,
                | 0 <= k < idx ==> self.actions@[k].name@ != action.name@,
            decreases n - i,
        {
            if self.actions[i].name == action.name {
                assert(i == idx);
                self.samples.set(i, sample_from_value(initial));
                return ;
            }
            i = i + 1;
        }
        self.actions.push(action);
        self.samples.push(sample_from_value(initial));
    }

    /// Looks up the sample for an action. The stored kind must match the
    /// kind the caller supplies, else the lookup fails with
    /// `ActionKindMismatch`; an unknown name fails with `ActionNotFound`.
    pub fn sample(&self, action: &XrAction) -> (r: Result<XrActionState, ActionError>)
        requires
            self.wf(),
        ensures
            ({
                let idx = find_index(self.actions@, action.name@);
                if idx == -1 {
                    r == Err::<XrActionState, ActionError>(ActionError::ActionNotFound)
                } else if kind_matches(action.action_type, self.samples@[idx]) {
                    r == Ok::<XrActionState, ActionError>(self.samples@[idx])
                } else {
                    r == Err::<XrActionState, ActionError>(ActionError::ActionKindMismatch)
                }
            }),
    {
        proof {
            lemma_find_index(self.actions@, action.name@);
        }
        let ghost idx = find_index(self.actions@, action.name@);
        let n: usize = self.actions.len();
        let mut i: usize = 0;
        while i < n
            invariant
                self.wf(),
                n == self.actions@.len(),
                i <= n,
                forall|k: int| 0 <= k < i ==> self.actions@[k].name@ != action.name@,
                idx == find_index(self.actions@, action.name@),
                idx == -1 ==> forall|k: int| 0 <= k < n ==> self.actions@[k].name@ != action.name@,
                idx != -1 ==> 0 <= idx < n && self.actions@[idx].name@ == action.name@ && forall|
                    k: int,
                | 0 <= k < idx ==> self.actions@[k].name@ != action.name@,
            decreases n - i,
        {
            if self.actions[i].name == action.name {
                assert(i == idx);
                let stored = self.samples[i];
                let matching: bool = match (&stored, &action.action_type) {
                    (XrActionState::Float(_), XrActionType::Float) => true,
                    (XrActionState::Bool(_), XrActionType::Bool) => true,
                    (XrActionState::Vec2(_), XrActionType::Vec2) => true,
                    _ => false,
                };
                if matching {
                    return Ok(stored);
                } else {
                    return Err(ActionError::ActionKindMismatch);
                }
            }
            i = i + 1;
        }
        Err(ActionError::ActionNotFound)
    }

    /// Records the value freshly sampled for an action this tick: the
    /// current value is replaced and the edge flags are derived against the
    /// previous value, which stays as it is until the end-of-tick snapshot.
    pub fn record(&mut self, action: &XrAction, value: XrActionValue) -> (r: Result<
        (),
        ActionError,
    >)
        requires
            old(self).wf(),
        ensures
            final(self).wf(),
            final(self).actions@ == old(self).actions@,
            ({
                let idx = find_index(old(self).actions@, action.name@);
                if idx == -1 {
                    r == Err::<(), ActionError>(ActionError::ActionNotFound) && final(self).samples@ == old(self).samples@
                } else if value_matches(value, old(self).samples@[idx]) {
                    r == Ok::<(), ActionError>(()) && final(self).samples@ == old(self).samples@.update(idx, recorded_sample(old(self).samples@[idx], value))
                } else {
                    r == Err::<(), ActionError>(ActionError::ActionKindMismatch) && final(self).samples@ == old(self).samples@
                }
            }),
    {
        proof {
            lemma_find_index(self.actions@, action.name@);
        }
        let ghost idx = find_index(self.actions@, action.name@);
        let n: usize = self.actions.len();
        let mut i: usize = 0;
        while i < n
            invariant
                self == old(self),
                n == self.actions@.len(),
                self.wf(),
                i <= n,
                forall|k: int| 0 <= k < i ==> self.actions@[k].name@ != action.name@,
                idx == find_index(self.actions@, action.name@),
                idx == -1 ==> forall|k: int| 0 <= k < n ==> self.actions@[k].name@ != action.name@,
                idx != -1 ==> 0 <= idx < n && self.actions@[idx].name@ == action.name@ && forall|
                    k: int,
                | 0 <= k < idx ==> self.actions@[k].name@ != action.name@,
            decreases n - i,
        {
            if self.actions[i].name == action.name {
                assert(i == idx);
                let entry = self.samples[i];
                let updated: XrActionState = match (&entry, &value) {
                    (XrActionState::Float(f), XrActionValue::Float(nv)) => XrActionState::Float(
                        XrActionStateFloat {
                            previous_val: f.previous_val,
                            cur_val: *nv,
                            pressed: f.previous_val <= 0 && *nv > 0,
                        },
                    ),
                    (XrActionState::Bool(b), XrActionValue::Bool(nv)) => XrActionState::Bool(
                        XrActionStateBool {
                            previous_val: b.previous_val,
                            cur_val: *nv,
                            pressed: !b.previous_val && *nv,
                        },
                    ),
                    (XrActionState::Vec2(v2), XrActionValue::Vec2(nv)) => XrActionState::Vec2(
                        XrActionStateVec2 {
                            previous_val: v2.previous_val,
                            cur_val: *nv,
                            pressed_x: v2.previous_val.x == 0 && nv.x != 0,
                            pressed_y: v2.previous_val.y == 0 && nv.y != 0,
                        },
                    ),
                    _ => {
                        return Err(ActionError::ActionKindMismatch);
                    },
                };
                self.samples.set(i, updated);
                return Ok(());
            }
            i = i + 1;
        }
        Err(ActionError::ActionNotFound)
    }

    /// The end-of-tick snapshot: every action's edge is evaluated one last
    /// time, then its current value becomes its previous value.
    pub fn advance_frame(&mut self)
        requires
            old(self).wf(),
        ensures
            final(self).wf(),
            final(self).actions@ == old(self).actions@,
            final(self).samples@.len() == old(self).samples@.len(),
            forall|i: int|
                0 <= i < final(self).samples@.len() ==> #[trigger] final(self).samples@[i]
                    == advanced_sample(old(self).samples@[i]),
    {
        let n: usize = self.samples.len();
        let mut i: usize = 0;
        while i < n
            invariant
                old(self).wf(),
                self.actions@ == old(self).actions@,
                n == self.samples@.len(),
                old(self).samples@.len() == n,
                i <= n,
                forall|k: int| i <= k < n ==> #[trigger] self.samples@[k] == old(self).samples@[k],
                forall|k: int|
                    0 <= k < i ==> #[trigger] self.samples@[k] == advanced_sample(
                        old(self).samples@[k],
                    ),
            decreases n - i,
        {
            let entry = self.samples[i];
            let updated: XrActionState = match &entry {
                XrActionState::Float(f) => XrActionState::Float(
                    XrActionStateFloat {
                        previous_val: f.cur_val,
                        cur_val: f.cur_val,
                        pressed: f.previous_val <= 0 && f.cur_val > 0,
                    },
                ),
                XrActionState::Bool(b) => XrActionState::Bool(
                    XrActionStateBool {
                        previous_val: b.cur_val,
                        cur_val: b.cur_val,
                        pressed: !b.previous_val && b.cur_val,
                    },
                ),
                XrActionState::Vec2(v2) => XrActionState::Vec2(
                    XrActionStateVec2 {
                        previous_val: v2.cur_val,
                        cur_val: v2.cur_val,
                        pressed_x: v2.previous_val.x == 0 && v2.cur_val.x != 0,
                        pressed_y: v2.previous_val.y == 0 && v2.cur_val.y != 0,
                    },
                ),
            };
            self.samples.set(i, updated);
            i = i + 1;
        }
    }
}

/// Builds the stored sample for a freshly registered action.
fn sample_from_value(v: XrActionValue) -> (r: XrActionState)
    ensures
        r == initial_sample(v),
{
    match v {
        XrActionValue::Float(f) => XrActionState::Float(
            XrActionStateFloat { previous_val: 0, cur_val: f, pressed: false },
        ),
        XrActionValue::Bool(b) => XrActionState::Bool(
            XrActionStateBool { previous_val: false, cur_val: b, pressed: false },
        ),
        XrActionValue::Vec2(v2) => XrActionState::Vec2(
            XrActionStateVec2 {
                previous_val: Vec2Fx { x: 0, y: 0 },
                cur_val: v2,
                pressed_x: false,
                pressed_y: false,
            },
        ),
    }
}

} // verus!
