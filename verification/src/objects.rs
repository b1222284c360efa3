//! The interactable-object model.
//!
//! Every physics body eligible for interaction carries a world transform, a
//! linear velocity, a half-extents box and one mutually exclusive state tag.
//! The interaction session keeps explicit singleton slots for the held, the
//! remotely pulled and the targeted object; well-formedness ties each slot
//! to the one object carrying the matching tag, which makes "at most one
//! held, at most one pulled" a provable invariant rather than a query
//! cardinality assumption.

use vstd::prelude::*;
use crate::fixed::{PoseFx, QuatFx, Vec3Fx};

verus! {

/// Bound on object world positions (and hand-local grip offsets) the
/// per-tick orchestrator accepts.
pub const OBJ_POS_LIMIT: i64 = 150_000;

/// The mutually exclusive interaction state of an object.
#[derive(Clone, Copy, PartialEq, Eq, Structural, Debug)]
pub enum ObjectState {
    /// Simulated freely by the physics engine.
    Free,
    /// Attached to the hand; its transform is hand-local.
    Held,
    /// Hit by this tick's targeting sweep; cleared again next tick.
    Targeted,
    /// Being remotely pulled toward the hand.
    Pulled,
}

/// A physics body tagged eligible for interaction.
#[derive(Clone, Copy, PartialEq, Eq, Structural, Debug)]
pub struct InteractableObject {
    /// Whether the grab machines may act on this object at all.
    pub grabbable: bool,
    pub state: ObjectState,
    /// World-space position, or the hand-local grip offset while `Held`.
    pub position: Vec3Fx,
    /// World-space orientation, or hand-local while `Held`.
    pub rotation: QuatFx,
    pub velocity: Vec3Fx,
    /// Half extents of the bounding box, used for grip placement.
    pub half_extents: Vec3Fx,
    /// False while the hand drives the transform instead of the simulation.
    pub physics_enabled: bool,
}

/// A tracked hand: pose and instantaneous linear velocity, read-only input
/// from the tracking layer.
#[derive(Clone, Copy, PartialEq, Eq, Structural, Debug)]
pub struct HandState {
    pub pose: PoseFx,
    pub velocity: Vec3Fx,
}

/// The interaction session: the objects and the three singleton slots.
pub struct InteractionWorld {
    pub objects: Vec<InteractableObject>,
    /// Index of the one object in `Held` state, if any.
    pub held: Option<usize>,
    /// Index of the one object in `Pulled` state, if any.
    pub pulled: Option<usize>,
    /// Index of the one object in `Targeted` state, if any.
    pub targeted: Option<usize>,
}

/// The spec-level snapshot of an interaction session.
pub ghost struct WorldModel {
    pub objects: Seq<InteractableObject>,
    pub held: Option<usize>,
    pub pulled: Option<usize>,
    pub targeted: Option<usize>,
}

impl View for InteractionWorld {
    type V = WorldModel;

    open spec fn view(&self) -> WorldModel {
        WorldModel {
            objects: self.objects@,
            held: self.held,
            pulled: self.pulled,
            targeted: self.targeted,
        }
    }
}

impl WorldModel {
    /// A slot holds exactly the index of the one object in the matching
    /// state: the slot is valid and points at such an object, and every
    /// object in that state is the one the slot points at.
    pub open spec fn slot_ok(self, slot: Option<usize>, st: ObjectState) -> bool {
        &&& match slot {
            Some(i) => i < self.objects.len() && self.objects[i as int].state == st,
            None => true,
        }
        &&& forall|j: int|
            0 <= j < self.objects.len() && self.objects[j].state == st ==> slot == Some(j as usize)
    }

    /// Well-formedness: each singleton slot agrees with the state tags.
    pub open spec fn wf(self) -> bool {
        &&& self.slot_ok(self.held, ObjectState::Held)
        &&& self.slot_ok(self.pulled, ObjectState::Pulled)
        &&& self.slot_ok(self.targeted, ObjectState::Targeted)
    }
}

/// The value a singleton slot takes after the object at `i` changed state:
/// the slot points at `i` when the object now carries the slot's state,
/// empties when the object just left it, and is untouched otherwise.
pub open spec fn slot_after(
    m: WorldModel,
    m2: WorldModel,
    i: int,
    slot: Option<usize>,
    st: ObjectState,
) -> Option<usize> {
    if m2.objects[i].state == st {
        Some(i as usize)
    } else if slot == Some(i as usize) {
        None
    } else {
        slot
    }
}

/// An object may enter a slot state only while that slot is empty.
pub open spec fn slot_entry_ok(
    m: WorldModel,
    m2: WorldModel,
    i: int,
    slot: Option<usize>,
    st: ObjectState,
) -> bool {
    m2.objects[i].state == st && m.objects[i].state != st ==> slot is None
}

/// Well-formedness is preserved by a transition that rewrites one object
/// and moves each singleton slot as `slot_after` says.
pub proof fn lemma_wf_one_object_change(m: WorldModel, m2: WorldModel, i: int)
    requires
        m.wf(),
        m.objects.len() <= usize::MAX,
        0 <= i < m.objects.len(),
        m2.objects.len() == m.objects.len(),
        forall|j: int| 0 <= j < m.objects.len() && j != i ==> m2.objects[j] == m.objects[j],
        slot_entry_ok(m, m2, i, m.held, ObjectState::Held),
        slot_entry_ok(m, m2, i, m.pulled, ObjectState::Pulled),
        slot_entry_ok(m, m2, i, m.targeted, ObjectState::Targeted),
        m2.held == slot_after(m, m2, i, m.held, ObjectState::Held),
        m2.pulled == slot_after(m, m2, i, m.pulled, ObjectState::Pulled),
        m2.targeted == slot_after(m, m2, i, m.targeted, ObjectState::Targeted),
    ensures
        m2.wf(),
{
    lemma_slot_ok_one_object_change(m, m2, i, m.held, ObjectState::Held);
    lemma_slot_ok_one_object_change(m, m2, i, m.pulled, ObjectState::Pulled);
    lemma_slot_ok_one_object_change(m, m2, i, m.targeted, ObjectState::Targeted);
}

proof fn lemma_slot_ok_one_object_change(
    m: WorldModel,
    m2: WorldModel,
    i: int,
    slot: Option<usize>,
    st: ObjectState,
)
    requires
        m.slot_ok(slot, st),
        m.objects.len() <= usize::MAX,
        0 <= i < m.objects.len(),
        m2.objects.len() == m.objects.len(),
        forall|j: int| 0 <= j < m.objects.len() && j != i ==> m2.objects[j] == m.objects[j],
        slot_entry_ok(m, m2, i, slot, st),
    ensures
        m2.slot_ok(slot_after(m, m2, i, slot, st), st),
{
    let slot2 = slot_after(m, m2, i, slot, st);
    assert forall|j: int|
        0 <= j < m2.objects.len() && m2.objects[j].state == st implies slot2 == Some(
        j as usize,
    ) by {
        if j != i {
            assert(m.objects[j].state == st);
            assert(slot == Some(j as usize));
            if m2.objects[i].state == st {
                // the changed object cannot have entered an occupied slot
                assert(m.objects[i].state == st);
                assert(slot == Some(i as usize));
            }
        }
    }
}

/// At most one object is `Held`, at most one is `Pulled` and at most one is
/// `Targeted`: two objects sharing any state other than `Free` are the same
/// object.
pub proof fn lemma_exclusive_state(m: WorldModel, i: int, j: int)
    requires
        m.wf(),
        m.objects.len() <= usize::MAX,
        0 <= i < m.objects.len(),
        0 <= j < m.objects.len(),
        m.objects[i].state == m.objects[j].state,
        !(m.objects[i].state is Free),
    ensures
        i == j,
{
    match m.objects[i].state {
        ObjectState::Held => {
            assert(m.held == Some(i as usize) && m.held == Some(j as usize));
        },
        ObjectState::Pulled => {
            assert(m.pulled == Some(i as usize) && m.pulled == Some(j as usize));
        },
        ObjectState::Targeted => {
            assert(m.targeted == Some(i as usize) && m.targeted == Some(j as usize));
        },
        ObjectState::Free => {},
    }
}

} // verus!
