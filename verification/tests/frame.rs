use frame_overlay::event_bridge::{dispatch, DispatchOutcome, EventArgumentError, ScriptEvent, ScriptValue};
use frame_overlay::frame::{DrawCommand, FrameDriver, FrameSubmissionError, Phase, PostStep};
use frame_overlay::layers::{document_layers, LayerSetBuilder};
use frame_overlay::render_state::{RenderState, Snapshot, INITIAL_SPEED_BITS};
use frame_overlay::resources::{
    plan_resources, CapabilityKey, DecodedImage, GpuResourceSet, ResourceInput, ShaderSource,
    SliceDescriptor, TextureInput,
};

fn source() -> ShaderSource {
    ShaderSource { glsl_120: vec![1], glsl_150: vec![2], hlsl_40: vec![3] }
}

fn resources(vertices: usize, textures: usize, constant_buffers: usize) -> GpuResourceSet {
    let image = DecodedImage { width: 1, height: 1, pixels: vec![0; 4] };
    let input = ResourceInput {
        vertex_shader: source(),
        pixel_shader: source(),
        vertex_bytes: vec![0; vertices * 16],
        vertex_stride: 16,
        textures: vec![TextureInput::Flat(image); textures],
        constant_buffers,
    };
    let layout = plan_resources(CapabilityKey::Hlsl { model: 40 }, &input).unwrap();
    GpuResourceSet::from_allocation(layout, true).unwrap()
}

fn triangle_driver() -> FrameDriver {
    FrameDriver::new(resources(3, 0, 0), true)
}

fn blend_driver() -> FrameDriver {
    FrameDriver::new(resources(6, 2, 1), false)
}

fn draw(end: u32, textures: usize) -> DrawCommand {
    DrawCommand::Draw { slice: SliceDescriptor { start: 0, end, base_vertex: 0 }, textures }
}

fn set_blending(state: &mut RenderState, index: i32) -> DispatchOutcome {
    let event = ScriptEvent { name: "setBlending".to_string(), args: vec![ScriptValue::Int(index)] };
    dispatch(state, &event)
}

#[test]
fn flat_color_triangle_is_one_draw_call_of_three_vertices() {
    let mut driver = triangle_driver();
    let state = RenderState::new();
    assert_eq!(driver.phase(), Phase::Idle);
    assert!(driver.pre_phase());
    assert_eq!(driver.phase(), Phase::Prepared);
    let commands = driver.draw_phase(&state);
    assert_eq!(commands, vec![draw(3, 0)]);
    let draws = commands.iter().filter(|c| matches!(c, DrawCommand::Draw { .. })).count();
    assert_eq!(draws, 1);
    assert_eq!(driver.phase(), Phase::Recording);
    assert_eq!(driver.resources().layout().textures().len(), 0);
}

#[test]
fn blend_frame_uploads_clears_and_draws() {
    let mut driver = blend_driver();
    let state = RenderState::new();
    assert!(!driver.pre_phase());
    let commands = driver.draw_phase(&state);
    let initial = Snapshot { blend_index: 0, speed_bits: INITIAL_SPEED_BITS };
    assert_eq!(
        commands,
        vec![DrawCommand::UpdateConstants(initial), DrawCommand::Clear, draw(6, 2)]
    );
}

#[test]
fn target_is_cleared_once() {
    let state = RenderState::new();
    let mut owning = FrameDriver::new(resources(3, 0, 1), true);
    assert!(owning.pre_phase());
    let commands = owning.draw_phase(&state);
    assert!(!commands.contains(&DrawCommand::Clear));
    assert_eq!(commands.len(), 2);
    let mut deferring = FrameDriver::new(resources(3, 0, 1), false);
    assert!(!deferring.pre_phase());
    let commands = deferring.draw_phase(&state);
    assert_eq!(commands.iter().filter(|c| **c == DrawCommand::Clear).count(), 1);
}

#[test]
fn draw_without_pre_phase_clears_itself() {
    let state = RenderState::new();
    let mut driver = triangle_driver();
    assert_eq!(driver.draw_phase(&state), vec![DrawCommand::Clear, draw(3, 0)]);
    assert!(driver.pre_phase());
    assert_eq!(driver.draw_phase(&state), vec![draw(3, 0)]);
    assert_eq!(driver.draw_phase(&state), vec![DrawCommand::Clear, draw(3, 0)]);
}

#[test]
fn next_frame_shows_the_blend_index_that_was_set() {
    let mut driver = blend_driver();
    let mut state = RenderState::new();
    assert_eq!(set_blending(&mut state, 4), DispatchOutcome::Acknowledged);
    driver.pre_phase();
    let commands = driver.draw_phase(&state);
    assert_eq!(driver.snapshot().blend_index, 4);
    assert_eq!(
        commands[0],
        DrawCommand::UpdateConstants(Snapshot { blend_index: 4, speed_bits: INITIAL_SPEED_BITS })
    );
    assert_eq!(driver.submitted(true), Ok(()));
    assert_eq!(driver.post_phase(), PostStep::Complete { present: true });
    assert_eq!(
        set_blending(&mut state, 99),
        DispatchOutcome::Rejected(EventArgumentError::OutOfRange)
    );
    assert_eq!(state.blend_index(), 4);
    driver.pre_phase();
    driver.draw_phase(&state);
    assert_eq!(driver.snapshot().blend_index, 4);
}

#[test]
fn write_after_the_snapshot_shows_in_the_next_frame() {
    let mut driver = blend_driver();
    assert!(driver.attach_layers(document_layers(true, true).unwrap()));
    let mut state = RenderState::new();
    set_blending(&mut state, 2);
    driver.pre_phase();
    driver.draw_phase(&state);
    assert_eq!(driver.snapshot().blend_index, 2);
    set_blending(&mut state, 7);
    assert_eq!(driver.snapshot().blend_index, 2);
    assert_eq!(driver.submitted(true), Ok(()));
    assert_eq!(driver.post_phase(), PostStep::RenderLayer { index: 0, topmost: false });
    set_blending(&mut state, 8);
    assert_eq!(driver.snapshot().blend_index, 2);
    assert_eq!(driver.layer_rendered(true), PostStep::RenderLayer { index: 1, topmost: true });
    assert_eq!(driver.snapshot().blend_index, 2);
    assert_eq!(driver.layer_rendered(true), PostStep::Complete { present: true });
    assert_eq!(driver.snapshot().blend_index, 2);
    driver.pre_phase();
    let commands = driver.draw_phase(&state);
    assert_eq!(driver.snapshot().blend_index, 8);
    assert_eq!(
        commands[0],
        DrawCommand::UpdateConstants(Snapshot { blend_index: 8, speed_bits: INITIAL_SPEED_BITS })
    );
}

#[test]
fn two_layers_are_rendered_in_order_after_the_draw() {
    let mut driver = triangle_driver();
    assert!(driver.attach_layers(document_layers(true, true).unwrap()));
    let state = RenderState::new();
    for _ in 0..3 {
        driver.pre_phase();
        driver.draw_phase(&state);
        assert_eq!(driver.submitted(true), Ok(()));
        assert_eq!(driver.phase(), Phase::Drawn);
        let mut calls = Vec::new();
        let mut step = driver.post_phase();
        while let PostStep::RenderLayer { index, topmost } = step {
            assert_eq!(driver.phase(), Phase::Compositing);
            let name = driver.layers().unwrap().get(index).unwrap().name.clone();
            calls.push((name, topmost));
            step = driver.layer_rendered(true);
        }
        assert_eq!(step, PostStep::Complete { present: true });
        assert_eq!(
            calls,
            vec![("background".to_string(), false), ("foreground".to_string(), true)]
        );
        assert_eq!(driver.phase(), Phase::Idle);
    }
}

#[test]
fn refused_submission_loses_the_frame_only() {
    let mut driver = triangle_driver();
    driver.attach_layers(document_layers(true, true).unwrap());
    let state = RenderState::new();
    driver.pre_phase();
    driver.draw_phase(&state);
    assert_eq!(driver.submitted(false), Err(FrameSubmissionError::DeviceRejected));
    assert_eq!(driver.phase(), Phase::Failed);
    assert_eq!(driver.post_phase(), PostStep::Complete { present: false });
    assert_eq!(driver.phase(), Phase::Idle);
    driver.pre_phase();
    driver.draw_phase(&state);
    assert_eq!(driver.submitted(true), Ok(()));
    assert_eq!(driver.post_phase(), PostStep::RenderLayer { index: 0, topmost: false });
}

#[test]
fn post_phase_needs_a_drawn_frame() {
    let state = RenderState::new();
    let mut driver = triangle_driver();
    driver.attach_layers(document_layers(true, true).unwrap());
    assert_eq!(driver.post_phase(), PostStep::Complete { present: false });
    driver.pre_phase();
    assert_eq!(driver.post_phase(), PostStep::Complete { present: false });
    assert_eq!(driver.phase(), Phase::Idle);
    driver.pre_phase();
    driver.draw_phase(&state);
    assert_eq!(driver.post_phase(), PostStep::Complete { present: false });
    assert_eq!(driver.layer_rendered(true), PostStep::Complete { present: false });
    assert_eq!(driver.phase(), Phase::Idle);
}

#[test]
fn submission_is_reported_once_per_draw() {
    let state = RenderState::new();
    let mut driver = triangle_driver();
    assert_eq!(driver.submitted(true), Err(FrameSubmissionError::NothingRecorded));
    assert_eq!(driver.phase(), Phase::Idle);
    driver.pre_phase();
    assert_eq!(driver.submitted(true), Err(FrameSubmissionError::NothingRecorded));
    driver.draw_phase(&state);
    assert_eq!(driver.submitted(true), Ok(()));
    assert_eq!(driver.submitted(true), Err(FrameSubmissionError::NothingRecorded));
    assert_eq!(driver.phase(), Phase::Drawn);
}

#[test]
fn failed_layer_ends_the_frame_unpresented() {
    let mut builder = LayerSetBuilder::new();
    for (name, topmost) in [("a", false), ("b", false), ("c", true)] {
        builder.push(name.to_string(), topmost).unwrap();
    }
    let mut driver = triangle_driver();
    driver.attach_layers(builder.build());
    let state = RenderState::new();
    driver.pre_phase();
    driver.draw_phase(&state);
    driver.submitted(true).unwrap();
    assert_eq!(driver.post_phase(), PostStep::RenderLayer { index: 0, topmost: false });
    assert_eq!(driver.layer_rendered(false), PostStep::Complete { present: false });
    assert_eq!(driver.phase(), Phase::Idle);
    assert_eq!(driver.layer_rendered(true), PostStep::Complete { present: false });
}

#[test]
fn driver_without_ui_presents_after_the_draw() {
    let mut driver = triangle_driver();
    assert!(driver.layers().is_none());
    let state = RenderState::new();
    driver.pre_phase();
    driver.draw_phase(&state);
    driver.submitted(true).unwrap();
    assert_eq!(driver.post_phase(), PostStep::Complete { present: true });
}

#[test]
fn layers_are_bound_once() {
    let mut driver = triangle_driver();
    assert!(driver.attach_layers(document_layers(true, true).unwrap()));
    let mut other = LayerSetBuilder::new();
    other.push("only".to_string(), true).unwrap();
    assert!(!driver.attach_layers(other.build()));
    let layers = driver.layers().unwrap();
    assert_eq!(layers.len(), 2);
    assert_eq!(layers.get(0).unwrap().name, "background");
}

#[test]
fn abandoned_frame_is_replaced_by_the_next() {
    let mut driver = triangle_driver();
    driver.attach_layers(document_layers(true, true).unwrap());
    let state = RenderState::new();
    driver.pre_phase();
    driver.draw_phase(&state);
    driver.submitted(true).unwrap();
    assert_eq!(driver.post_phase(), PostStep::RenderLayer { index: 0, topmost: false });
    assert!(driver.pre_phase());
    assert_eq!(driver.phase(), Phase::Prepared);
    assert_eq!(driver.layer_rendered(true), PostStep::Complete { present: false });
    driver.draw_phase(&state);
    driver.submitted(true).unwrap();
    assert_eq!(driver.post_phase(), PostStep::RenderLayer { index: 0, topmost: false });
    assert_eq!(driver.layer_rendered(true), PostStep::RenderLayer { index: 1, topmost: true });
    assert_eq!(driver.layer_rendered(true), PostStep::Complete { present: true });
}
