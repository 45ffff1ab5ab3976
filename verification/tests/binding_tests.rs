use tracer::binding::{
    binding_order, bindings_in_set, slot_layout, Access, BufferRole, SlotLayout, BINDING_COUNT,
    SET_COUNT,
};

#[test]
fn buffers_are_bound_output_scene_camera() {
    assert_eq!(binding_order(), [BufferRole::Output, BufferRole::Scene, BufferRole::Camera]);
    assert_eq!(BINDING_COUNT, 3);
}

#[test]
fn each_role_has_its_slot() {
    assert_eq!(BufferRole::Output.slot(), 0);
    assert_eq!(BufferRole::Scene.slot(), 1);
    assert_eq!(BufferRole::Camera.slot(), 2);
}

#[test]
fn each_slot_has_its_role() {
    assert_eq!(BufferRole::at_slot(0), Some(BufferRole::Output));
    assert_eq!(BufferRole::at_slot(1), Some(BufferRole::Scene));
    assert_eq!(BufferRole::at_slot(2), Some(BufferRole::Camera));
    assert_eq!(BufferRole::at_slot(3), None);
    assert_eq!(BufferRole::at_slot(u32::MAX), None);
}

#[test]
fn slot_and_role_lead_back_to_each_other() {
    for (position, role) in binding_order().iter().enumerate() {
        assert_eq!(role.slot() as usize, position);
        assert_eq!(BufferRole::at_slot(role.slot()), Some(*role));
    }
}

#[test]
fn only_the_output_is_written() {
    assert_eq!(BufferRole::Output.access(), Access::ReadWrite);
    assert_eq!(BufferRole::Scene.access(), Access::ReadOnly);
    assert_eq!(BufferRole::Camera.access(), Access::ReadOnly);
}

#[test]
fn all_slots_are_in_the_first_set() {
    assert_eq!(SET_COUNT, 1);
    assert_eq!(bindings_in_set(0), Some(3));
    assert_eq!(bindings_in_set(1), None);
    assert_eq!(bindings_in_set(usize::MAX), None);
}

#[test]
fn the_kernel_declares_three_storage_slots() {
    assert_eq!(
        slot_layout(0, 0),
        Some(SlotLayout { role: BufferRole::Output, read_only: false })
    );
    assert_eq!(slot_layout(0, 1), Some(SlotLayout { role: BufferRole::Scene, read_only: true }));
    assert_eq!(slot_layout(0, 2), Some(SlotLayout { role: BufferRole::Camera, read_only: true }));
}

#[test]
fn the_kernel_declares_nothing_else() {
    assert_eq!(slot_layout(0, 3), None);
    assert_eq!(slot_layout(0, usize::MAX), None);
    assert_eq!(slot_layout(1, 0), None);
    assert_eq!(slot_layout(usize::MAX, 2), None);
    assert_eq!(slot_layout(0, 1usize << 32), None);
}

#[test]
fn slot_layouts_follow_the_binding_order() {
    for (binding, role) in binding_order().iter().enumerate() {
        let layout = slot_layout(0, binding).unwrap();
        assert_eq!(layout.role, *role);
        assert_eq!(layout.read_only, role.access() == Access::ReadOnly);
    }
}
