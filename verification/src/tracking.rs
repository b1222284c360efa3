//! Tracking-rig bookkeeping: copying device-space poses to the entities
//! that follow them, matched by action name, and the small decisions of the
//! head-pose update — which display time to predict and which pose
//! components a space location may overwrite.

use vstd::prelude::*;
use crate::actions::XrAction;
use crate::fixed::{PoseFx, QuatFx, Vec3Fx};

verus! {

/// A set of device-driven spaces: the action each space follows, its pose and
/// its velocity, at matching indices.
pub struct XrSpaceRig {
    pub actions: Vec<XrAction>,
    pub poses: Vec<PoseFx>,
    pub velocities: Vec<Vec3Fx>,
}

impl XrSpaceRig {
    /// One pose and one velocity per action.
    pub open spec fn wf(self) -> bool {
        &&& self.actions@.len() == self.poses@.len()
        &&& self.actions@.len() == self.velocities@.len()
    }
}

/// The index of the last action with this name, or -1: when several
/// sources carry the same name, the last one wins.
pub open spec fn last_match_idx(s: Seq<XrAction>, name: Seq<char>) -> int
    decreases s.len(),
{
    if s.len() == 0 {
        -1
    } else if s.last().name@ == name {
        s.len() - 1
    } else {
        last_match_idx(s.drop_last(), name)
    }
}

/// Copies every device space's pose and velocity onto each rig space
/// following the action of the same name. A rig space whose action no
/// device space carries keeps its pose; when several device spaces share a
/// name, the last one wins.
pub fn update_spaces(spaces: &XrSpaceRig, rig: &mut XrSpaceRig)
    requires
        spaces.wf(),
        old(rig).wf(),
    ensures
        final(rig).wf(),
        final(rig).actions@ == old(rig).actions@,
        final(rig).poses@.len() == old(rig).poses@.len(),
        final(rig).velocities@.len() == old(rig).velocities@.len(),
        forall|j: int|
            0 <= j < old(rig).actions@.len() ==> {
                let idx = #[trigger] last_match_idx(
                    spaces.actions@,
                    old(rig).actions@[j].name@,
                );
                if idx == -1 {
                    final(rig).poses@[j] == old(rig).poses@[j]
                        && final(rig).velocities@[j] == old(rig).velocities@[j]
                } else {
                    final(rig).poses@[j] == spaces.poses@[idx]
                        && final(rig).velocities@[j] == spaces.velocities@[idx]
                }
            },
{
    let n: usize = spaces.actions.len();
    let m: usize = rig.actions.len();
    let mut si: usize = 0;
    while si < n
        invariant
            spaces.wf(),
            old(rig).wf(),
            rig.wf(),
            n == spaces.actions@.len(),
            m == rig.actions@.len(),
            old(rig).actions@.len() == m,
            si <= n,
            rig.actions@ == old(rig).actions@,
            forall|j: int|
                0 <= j < m ==> {
                    let idx = #[trigger] last_match_idx(
                        spaces.actions@.take(si as int),
                        old(rig).actions@[j].name@,
                    );
                    if idx == -1 {
                        rig.poses@[j] == old(rig).poses@[j] && rig.velocities@[j]
                            == old(rig).velocities@[j]
                    } else {
                        rig.poses@[j] == spaces.poses@[idx] && rig.velocities@[j]
                            == spaces.velocities@[idx]
                    }
                },
        decreases n - si,
    {
        let mut tj: usize = 0;
        while tj < m
            invariant
                spaces.wf(),
                old(rig).wf(),
                rig.wf(),
                n == spaces.actions@.len(),
                m == rig.actions@.len(),
                old(rig).actions@.len() == m,
                si < n,
                tj <= m,
                rig.actions@ == old(rig).actions@,
                forall|j: int|
                    0 <= j < tj ==> {
                        let idx = #[trigger] last_match_idx(
                            spaces.actions@.take(si + 1),
                            old(rig).actions@[j].name@,
                        );
                        if idx == -1 {
                            rig.poses@[j] == old(rig).poses@[j] && rig.velocities@[j]
                                == old(rig).velocities@[j]
                        } else {
                            rig.poses@[j] == spaces.poses@[idx] && rig.velocities@[j]
                                == spaces.velocities@[idx]
                        }
                    },
                forall|j: int|
                    tj <= j < m ==> {
                        let idx = #[trigger] last_match_idx(
                            spaces.actions@.take(si as int),
                            old(rig).actions@[j].name@,
                        );
                        if idx == -1 {
                            rig.poses@[j] == old(rig).poses@[j] && rig.velocities@[j]
                                == old(rig).velocities@[j]
                        } else {
                            rig.poses@[j] == spaces.poses@[idx] && rig.velocities@[j]
                                == spaces.velocities@[idx]
                        }
                    },
            decreases m - tj,
        {
            proof {
                assert(spaces.actions@.take(si + 1).drop_last() =~= spaces.actions@.take(
                    si as int,
                ));
                assert(spaces.actions@.take(si + 1).last() == spaces.actions@[si as int]);
            }
            if spaces.actions[si].name == rig.actions[tj].name {
                rig.poses.set(tj, spaces.poses[si]);
                rig.velocities.set(tj, spaces.velocities[si]);
            }
            proof {
                let namej = old(rig).actions@[tj as int].name@;
                if spaces.actions@[si as int].name@ == namej {
                    assert(last_match_idx(spaces.actions@.take(si + 1), namej) == si);
                } else {
                    assert(last_match_idx(spaces.actions@.take(si + 1), namej)
                        == last_match_idx(spaces.actions@.take(si as int), namej));
                }
            }
            tj = tj + 1;
        }
        si = si + 1;
    }
    proof {
        assert(spaces.actions@.take(n as int) =~= spaces.actions@);
    }
}

/// The display time the head pose is located at: one display period ahead
/// when rendering is pipelined, the predicted display time itself
/// otherwise.
pub fn predicted_display_time(pipelined: bool, display_nanos: i64, period_nanos: i64) -> (r: i64)
    requires
        pipelined ==> -i64::MAX <= display_nanos + period_nanos <= i64::MAX,
    ensures
        r == if pipelined {
            display_nanos + period_nanos
        } else {
            display_nanos as int
        },
{
    if pipelined {
        display_nanos + period_nanos
    } else {
        display_nanos
    }
}

/// Applies a located space pose to a rig pose, component by component:
/// the position is taken only while the location's position is valid, the
/// orientation only while its orientation is valid.
pub fn apply_space_location(
    pose: &mut PoseFx,
    pos_valid: bool,
    rot_valid: bool,
    new_pos: &Vec3Fx,
    new_rot: &QuatFx,
)
    ensures
        final(pose).position == if pos_valid {
            *new_pos
        } else {
            old(pose).position
        },
        final(pose).orientation == if rot_valid {
            *new_rot
        } else {
            old(pose).orientation
        },
{
    if pos_valid {
        pose.position = *new_pos;
    }
    if rot_valid {
        pose.orientation = *new_rot;
    }
}

} // verus!
