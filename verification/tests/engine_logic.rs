use render_core::grid::{grid_cells, GridCell, INSTANCES_PER_ROW};
use render_core::history::{FrameHistory, FRAME_HISTORY_LEN};
use render_core::input::{frame_actions, EngineInput, FrameInput, Key, MouseButton, MovementKeys};
use render_core::layout::{
    instance_layout, model_vertex_layout, packed_layout, AttributeFormat, StepMode, VertexAttribute,
};
use render_core::model::{
    draw_mesh, draw_model, draw_model_instanced, material_name, mesh_name, DrawCall, InstanceRange, MeshInfo,
    ModelInfo, PrimitiveInfo,
};
use render_core::surface::{choose_format, plan_acquire, FrameOutcome, SurfaceState, SurfaceStatus};

#[test]
fn choose_format_prefers_first_srgb() {
    assert_eq!(choose_format(&[false, true, true]), 1);
    assert_eq!(choose_format(&[true]), 0);
    assert_eq!(choose_format(&[false, false]), 0);
}

#[test]
fn resize_configures_only_nonempty_sizes() {
    let mut s = SurfaceState::new(800, 600);
    assert!(!s.can_render());
    assert!(!s.resize(0, 600));
    assert_eq!(s, SurfaceState { width: 800, height: 600, configured: false });
    assert!(s.resize(1024, 768));
    assert_eq!(s, SurfaceState { width: 1024, height: 768, configured: true });
    assert!(!s.resize(1024, 0));
    assert_eq!(s, SurfaceState { width: 1024, height: 768, configured: true });
    assert!(s.can_render());
}

#[test]
fn acquire_plans() {
    let p = plan_acquire(SurfaceStatus::Success);
    assert!(!p.reconfigure && p.outcome == FrameOutcome::Draw);
    let p = plan_acquire(SurfaceStatus::Suboptimal);
    assert!(p.reconfigure && p.outcome == FrameOutcome::Draw);
    let p = plan_acquire(SurfaceStatus::Timeout);
    assert!(!p.reconfigure && p.outcome == FrameOutcome::Skip);
    let p = plan_acquire(SurfaceStatus::Occluded);
    assert!(!p.reconfigure && p.outcome == FrameOutcome::Skip);
    let p = plan_acquire(SurfaceStatus::Outdated);
    assert!(p.reconfigure && p.outcome == FrameOutcome::Skip);
    let p = plan_acquire(SurfaceStatus::Lost);
    assert!(!p.reconfigure && p.outcome == FrameOutcome::DeviceLost);
    let p = plan_acquire(SurfaceStatus::Validation);
    assert!(!p.reconfigure && p.outcome == FrameOutcome::ValidationError);
}

#[test]
fn movement_from_held_keys() {
    let mut k = MovementKeys::none();
    let m = k.movement();
    assert_eq!((m.right, m.up, m.forward, m.multiplier), (0, 0, 0, 1));
    k.d = true;
    k.w = true;
    k.space = true;
    k.shift_left = true;
    let m = k.movement();
    assert_eq!((m.right, m.up, m.forward, m.multiplier), (1, 1, 1, 2));
    k.a = true;
    k.s = true;
    k.control_left = true;
    k.space = false;
    let m = k.movement();
    assert_eq!((m.right, m.up, m.forward, m.multiplier), (0, -1, 0, 2));
}

#[test]
fn key_events_exit_only_on_escape_press() {
    let mut e = EngineInput::new();
    assert!(!e.handle_key(Key::KeyW, true));
    assert!(e.keys.w);
    assert!(!e.handle_key(Key::Escape, false));
    assert!(!e.handle_key(Key::Other, true));
    assert!(e.handle_key(Key::Escape, true));
    assert!(!e.handle_key(Key::KeyW, false));
    assert!(!e.keys.w);
}

#[test]
fn only_right_button_is_tracked() {
    let mut e = EngineInput::new();
    e.handle_mouse_button(MouseButton::Left, true);
    assert!(!e.mouse_pressed);
    e.handle_mouse_button(MouseButton::Right, true);
    assert!(e.mouse_pressed);
    e.handle_mouse_button(MouseButton::Middle, false);
    assert!(e.mouse_pressed);
    e.handle_mouse_button(MouseButton::Right, false);
    assert!(!e.mouse_pressed);
}

#[test]
fn frame_actions_exit_and_mouse() {
    let a = frame_actions(FrameInput { close_requested: false, right_mouse_held: true, escape_pressed: false });
    assert!(!a.exit && a.forward_mouse_motion);
    let a = frame_actions(FrameInput { close_requested: true, right_mouse_held: false, escape_pressed: false });
    assert!(a.exit && !a.forward_mouse_motion);
    let a = frame_actions(FrameInput { close_requested: false, right_mouse_held: false, escape_pressed: true });
    assert!(a.exit);
}

#[test]
fn history_keeps_newest_samples() {
    let mut h: FrameHistory<u32> = FrameHistory::new();
    assert!(h.is_empty());
    assert_eq!(h.latest(), None);
    for i in 0..(FRAME_HISTORY_LEN as u32 + 5) {
        h.push(i);
    }
    assert_eq!(h.len(), FRAME_HISTORY_LEN);
    assert_eq!(h.latest(), Some(&(FRAME_HISTORY_LEN as u32 + 4)));
    assert_eq!(h.samples().front(), Some(&5));
}

#[test]
fn history_below_capacity_keeps_all() {
    let mut h: FrameHistory<u32> = FrameHistory::new();
    h.push(7);
    h.push(9);
    assert_eq!(h.len(), 2);
    assert_eq!(h.samples().iter().copied().collect::<Vec<_>>(), vec![7, 9]);
}

#[test]
fn model_vertex_layout_matches_fields() {
    let l = model_vertex_layout();
    assert_eq!(l.step_mode, StepMode::Vertex);
    assert_eq!(l.array_stride, 32);
    assert_eq!(l.attributes, vec![
        VertexAttribute { offset: 0, shader_location: 0, format: AttributeFormat::Float32x3 },
        VertexAttribute { offset: 12, shader_location: 1, format: AttributeFormat::Float32x2 },
        VertexAttribute { offset: 20, shader_location: 2, format: AttributeFormat::Float32x3 },
    ]);
}

#[test]
fn instance_layout_is_four_columns() {
    let l = instance_layout();
    assert_eq!(l.step_mode, StepMode::Instance);
    assert_eq!(l.array_stride, 64);
    let offsets: Vec<u64> = l.attributes.iter().map(|a| a.offset).collect();
    let locations: Vec<u32> = l.attributes.iter().map(|a| a.shader_location).collect();
    assert_eq!(offsets, vec![0, 16, 32, 48]);
    assert_eq!(locations, vec![5, 6, 7, 8]);
}

#[test]
fn packed_layout_attributes_are_contiguous() {
    let l = packed_layout(StepMode::Vertex, 3, &[AttributeFormat::Float32x2, AttributeFormat::Float32x4]);
    assert_eq!(l.array_stride, 24);
    assert_eq!(l.attributes[1].offset, l.attributes[0].offset + 8);
    assert_eq!(l.attributes[1].shader_location, 4);
    assert!(packed_layout(StepMode::Instance, 0, &[]).attributes.is_empty());
}

#[test]
fn grid_is_row_major() {
    let cells = grid_cells(3);
    assert_eq!(cells.len(), 9);
    assert_eq!(cells[0], GridCell { x: 0, z: 0 });
    assert_eq!(cells[5], GridCell { x: 2, z: 1 });
    assert_eq!(cells[7], GridCell { x: 1, z: 2 });
    assert_eq!(grid_cells(INSTANCES_PER_ROW).len(), 40_000);
    assert!(grid_cells(0).is_empty());
}

fn sample_model() -> ModelInfo {
    ModelInfo {
        meshes: vec![
            MeshInfo { primitives: vec![PrimitiveInfo { num_elements: 36, material_id: 1 }] },
            MeshInfo { primitives: vec![] },
            MeshInfo {
                primitives: vec![
                    PrimitiveInfo { num_elements: 6, material_id: 0 },
                    PrimitiveInfo { num_elements: 12, material_id: 1 },
                ],
            },
        ],
        material_count: 2,
    }
}

#[test]
fn model_draw_calls_follow_primitives() {
    let model = sample_model();
    assert!(model.check_materials());
    let range = InstanceRange { start: 0, end: 40_000 };
    let calls = draw_model_instanced(&model, range);
    assert_eq!(calls, vec![
        DrawCall { mesh: 0, primitive: 0, material: 1, index_count: 36, instances: range },
        DrawCall { mesh: 2, primitive: 0, material: 0, index_count: 6, instances: range },
        DrawCall { mesh: 2, primitive: 1, material: 1, index_count: 12, instances: range },
    ]);
    let single = draw_model(&model);
    assert_eq!(single.len(), 3);
    assert!(single.iter().all(|c| c.instances == InstanceRange { start: 0, end: 1 }));
}

#[test]
fn mesh_draw_uses_given_material() {
    let model = sample_model();
    let calls = draw_mesh(2, &model.meshes[2], 1);
    assert_eq!(calls, vec![
        DrawCall { mesh: 2, primitive: 0, material: 1, index_count: 6, instances: InstanceRange { start: 0, end: 1 } },
        DrawCall { mesh: 2, primitive: 1, material: 1, index_count: 12, instances: InstanceRange { start: 0, end: 1 } },
    ]);
}

#[test]
fn bad_material_reference_is_detected() {
    let mut model = sample_model();
    model.material_count = 1;
    assert!(!model.check_materials());
}

#[test]
fn loaded_primitive_defaults() {
    assert_eq!(PrimitiveInfo::from_loaded(36, None), PrimitiveInfo { num_elements: 36, material_id: 0 });
    assert_eq!(PrimitiveInfo::from_loaded(6, Some(3)), PrimitiveInfo { num_elements: 6, material_id: 3 });
    assert_eq!(material_name(None), "UNNAMED_MATERIAL");
    assert_eq!(material_name(Some("stone")), "stone");
    assert_eq!(mesh_name(None, "stoned-cube.glb"), "stoned-cube.glb");
    assert_eq!(mesh_name(Some("Cube"), "stoned-cube.glb"), "Cube");
}
