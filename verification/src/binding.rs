//! The kernel's three resource slots and the buffer that each one takes.
use vstd::prelude::*;

verus! {

/// The number of resource slots that the kernel declares.
pub const BINDING_COUNT: u32 = 3;

/// The number of descriptor sets that the kernel declares: all slots are in set 0.
pub const SET_COUNT: usize = 1;

/// What a buffer is to the kernel.
#[derive(Clone, Copy, Debug, PartialEq, Eq, Structural)]
pub enum BufferRole {
    /// One packed colour per pixel, written by the kernel.
    Output,
    /// The spheres and the dimensions of the raster.
    Scene,
    /// The eye and the projection plane.
    Camera,
}

/// How the kernel uses a buffer.
#[derive(Clone, Copy, Debug, PartialEq, Eq, Structural)]
pub enum Access {
    ReadWrite,
    ReadOnly,
}

impl BufferRole {
    /// The slot that the kernel declares for a buffer of this role.
    pub open spec fn slot_of(self) -> int {
        match self {
            BufferRole::Output => 0,
            BufferRole::Scene => 1,
            BufferRole::Camera => 2,
        }
    }

    /// The role of the buffer that goes into `slot`, for the slots that the kernel
    /// declares.
    pub open spec fn role_at(slot: int) -> Option<BufferRole> {
        if slot == 0 {
            Some(BufferRole::Output)
        } else if slot == 1 {
            Some(BufferRole::Scene)
        } else if slot == 2 {
            Some(BufferRole::Camera)
        } else {
            None
        }
    }

    /// The slot that the kernel declares for a buffer of this role.
    pub fn slot(self) -> (slot: u32)
        ensures
            slot == self.slot_of(),
    {
        match self {
            BufferRole::Output => 0,
            BufferRole::Scene => 1,
            BufferRole::Camera => 2,
        }
    }

    /// The role of the buffer that goes into `slot`, or `None` where the kernel declares
    /// no such slot.
    pub fn at_slot(slot: u32) -> (role: Option<BufferRole>)
        ensures
            role == BufferRole::role_at(slot as int),
    {
        if slot == 0 {
            Some(BufferRole::Output)
        } else if slot == 1 {
            Some(BufferRole::Scene)
        } else if slot == 2 {
            Some(BufferRole::Camera)
        } else {
            None
        }
    }

    /// How the kernel uses a buffer of this role: it writes the pixels and only reads the
    /// scene and the camera.
    pub fn access(self) -> (access: Access)
        ensures
            access == (if self == BufferRole::Output {
                Access::ReadWrite
            } else {
                Access::ReadOnly
            }),
    {
        match self {
            BufferRole::Output => Access::ReadWrite,
            BufferRole::Scene => Access::ReadOnly,
            BufferRole::Camera => Access::ReadOnly,
        }
    }
}

/// What the kernel declares for one slot: a storage buffer of one element, for this
/// role, read only or not.
#[derive(Clone, Copy, Debug, PartialEq, Eq, Structural)]
pub struct SlotLayout {
    pub role: BufferRole,
    pub read_only: bool,
}

/// What the kernel declares for slot `binding` of set `set`: set 0 has the three slots,
/// of which only the output is written; there is nothing else.
pub open spec fn slot_layout_of(set: int, binding: int) -> Option<SlotLayout> {
    if set == 0 {
        match BufferRole::role_at(binding) {
            Some(role) => Some(SlotLayout { role, read_only: role != BufferRole::Output }),
            None => None,
        }
    } else {
        None
    }
}

/// The number of slots in set `set`, or `None` where the kernel declares no such set.
pub fn bindings_in_set(set: usize) -> (count: Option<usize>)
    ensures
        count == (if set < SET_COUNT {
            Some(BINDING_COUNT as usize)
        } else {
            None
        }),
{
    if set == 0 {
        Some(3)
    } else {
        None
    }
}

/// What the kernel declares for slot `binding` of set `set`, or `None` where it declares
/// nothing.
pub fn slot_layout(set: usize, binding: usize) -> (layout: Option<SlotLayout>)
    ensures
        layout == slot_layout_of(set as int, binding as int),
{
    if set != 0 || binding > 2 {
        return None;
    }
    match BufferRole::at_slot(binding as u32) {
        Some(role) => {
            let read_only = match role.access() {
                Access::ReadOnly => true,
                Access::ReadWrite => false,
            };
            Some(SlotLayout { role, read_only })
        },
        None => None,
    }
}

/// The roles in the order in which their buffers are bound: the buffer at position `i`
/// goes into slot `i`.
pub fn binding_order() -> (order: [BufferRole; 3])
    ensures
        order[0] == BufferRole::Output,
        order[1] == BufferRole::Scene,
        order[2] == BufferRole::Camera,
        forall|slot: int|
            0 <= slot < BINDING_COUNT ==> BufferRole::role_at(slot) == Some(#[trigger] order[slot]),
{
    [BufferRole::Output, BufferRole::Scene, BufferRole::Camera]
}

/// Every role has one of the declared slots, and that slot leads back to the role.
pub proof fn lemma_slot_of_role(role: BufferRole)
    ensures
        0 <= role.slot_of() < BINDING_COUNT,
        BufferRole::role_at(role.slot_of()) == Some(role),
{
}

/// Every declared slot has a role, and that role leads back to the slot; no other slot
/// has one.
pub proof fn lemma_role_at_slot(slot: int)
    ensures
        BufferRole::role_at(slot) is Some <==> 0 <= slot < BINDING_COUNT,
        BufferRole::role_at(slot) matches Some(role) ==> role.slot_of() == slot,
{
}

} // verus!
