use webgl_cube::RenderError;
use webgl_cube::cube::Cube;
use webgl_cube::cube::transform_of;
use webgl_cube::gl::BufferTarget;
use webgl_cube::gl::GlCall;
use webgl_cube::gl::GlContext;
use webgl_cube::gl::GlPlan;
use webgl_cube::gl::ResourceKind;
use webgl_cube::gl::StageKind;
use webgl_cube::mesh::cube_indices;
use webgl_cube::mesh::vertex_components;
use webgl_cube::renderer::init_renderer;
use webgl_cube::shader_program::ShaderProgram;

fn ok_plan() -> GlPlan {
    GlPlan {
        buffer_ok: vec![],
        shader_ok: vec![],
        program_ok: vec![],
        compile_ok: vec![],
        link_ok: vec![],
        shader_log: vec![],
        program_log: vec![],
        attribs: vec![(String::from("vertexPosition"), 0)],
        uniforms: vec![(String::from("vertexTransform"), 7)],
        frame_ok: vec![],
    }
}

fn count_calls(ctx: &GlContext, f: impl Fn(&GlCall) -> bool) -> usize {
    ctx.calls.iter().filter(|c| f(c)).count()
}

#[test]
fn create_succeeds_with_two_buffers_and_one_program() {
    let mut ctx = GlContext::new(ok_plan());
    let cube = Cube::new(&mut ctx);
    assert!(cube.is_ok());
    assert_eq!(ctx.buffers.len(), 2);
    assert_eq!(ctx.programs.len(), 1);
    assert_eq!(ctx.shaders.len(), 0);
}

#[test]
fn create_records_expected_gpu_protocol() {
    let mut ctx = GlContext::new(ok_plan());
    let cube = Cube::new(&mut ctx).unwrap();
    assert_eq!(count_calls(&ctx, |c| matches!(c, GlCall::CreateBuffer { .. })), 2);
    assert_eq!(
        count_calls(&ctx, |c| matches!(
            c,
            GlCall::BufferData { target: BufferTarget::ArrayBuffer, len: 24 }
        )),
        1
    );
    assert_eq!(
        count_calls(&ctx, |c| matches!(
            c,
            GlCall::BufferData { target: BufferTarget::ElementArrayBuffer, len: 36 }
        )),
        1
    );
    assert_eq!(count_calls(&ctx, |c| matches!(c, GlCall::CompileShader { .. })), 2);
    assert_eq!(count_calls(&ctx, |c| matches!(c, GlCall::LinkProgram { .. })), 1);

    cube.render(&mut ctx, 1000);
    assert_eq!(
        count_calls(&ctx, |c| matches!(
            c,
            GlCall::DrawTriangles { index_count: 36, index_16bit: true, offset: 0 }
        )),
        1
    );
    let uploads: Vec<&GlCall> = ctx
        .calls
        .iter()
        .filter(|c| matches!(c, GlCall::UniformMatrix { .. }))
        .collect();
    assert_eq!(uploads.len(), 1);
    match uploads[0] {
        GlCall::UniformMatrix { location, transpose, transform } => {
            assert_eq!(*location, 7);
            assert!(!*transpose);
            assert!(transform.rot_x_millirad != 0);
            assert!(transform.rot_y_millirad != 0);
            assert!(transform.rot_z_millirad != 0);
        },
        _ => unreachable!(),
    }
}

#[test]
fn vertex_buffer_alloc_failure_leaves_nothing_allocated() {
    let mut plan = ok_plan();
    plan.buffer_ok = vec![false];
    let mut ctx = GlContext::new(plan);
    let r = Cube::new(&mut ctx);
    assert_eq!(
        r.unwrap_err(),
        RenderError::ResourceExhausted { resource: ResourceKind::Buffer }
    );
    assert_eq!(ctx.buffers.len(), 0);
    assert_eq!(ctx.shaders.len(), 0);
    assert_eq!(ctx.programs.len(), 0);
}

#[test]
fn index_buffer_alloc_failure_releases_vertex_buffer() {
    let mut plan = ok_plan();
    plan.buffer_ok = vec![true, false];
    let mut ctx = GlContext::new(plan);
    let r = Cube::new(&mut ctx);
    assert_eq!(
        r.unwrap_err(),
        RenderError::ResourceExhausted { resource: ResourceKind::Buffer }
    );
    assert_eq!(ctx.buffers.len(), 0);
    assert_eq!(count_calls(&ctx, |c| matches!(c, GlCall::DeleteBuffer { .. })), 1);
}

#[test]
fn vertex_compile_failure_reports_stage_and_log() {
    let mut plan = ok_plan();
    plan.compile_ok = vec![false];
    plan.shader_log = vec![Some(String::from("bad vertex shader"))];
    let mut ctx = GlContext::new(plan);
    let r = Cube::new(&mut ctx);
    assert_eq!(
        r.unwrap_err(),
        RenderError::ShaderCompile {
            stage: StageKind::Vertex,
            message: Some(String::from("bad vertex shader")),
        }
    );
    assert_eq!(ctx.buffers.len(), 0);
    assert_eq!(ctx.shaders.len(), 0);
    assert_eq!(ctx.programs.len(), 0);
}

#[test]
fn compile_failure_without_log_has_no_message() {
    let mut plan = ok_plan();
    plan.compile_ok = vec![false];
    let mut ctx = GlContext::new(plan);
    let r = Cube::new(&mut ctx);
    assert_eq!(
        r.unwrap_err(),
        RenderError::ShaderCompile { stage: StageKind::Vertex, message: None }
    );
}

#[test]
fn fragment_compile_failure_releases_vertex_stage() {
    let mut plan = ok_plan();
    plan.compile_ok = vec![true, false];
    plan.shader_log = vec![Some(String::from("bad fragment shader"))];
    let mut ctx = GlContext::new(plan);
    let r = Cube::new(&mut ctx);
    assert_eq!(
        r.unwrap_err(),
        RenderError::ShaderCompile {
            stage: StageKind::Fragment,
            message: Some(String::from("bad fragment shader")),
        }
    );
    assert_eq!(ctx.shaders.len(), 0);
    assert_eq!(count_calls(&ctx, |c| matches!(c, GlCall::DeleteShader { .. })), 2);
}

#[test]
fn program_alloc_failure_releases_both_stages() {
    let mut plan = ok_plan();
    plan.program_ok = vec![false];
    let mut ctx = GlContext::new(plan);
    let r = Cube::new(&mut ctx);
    assert_eq!(
        r.unwrap_err(),
        RenderError::ResourceExhausted { resource: ResourceKind::Program }
    );
    assert_eq!(ctx.shaders.len(), 0);
    assert_eq!(ctx.programs.len(), 0);
    assert_eq!(count_calls(&ctx, |c| matches!(c, GlCall::DeleteShader { .. })), 2);
}

#[test]
fn link_failure_releases_program_once_and_stages_once() {
    let mut plan = ok_plan();
    plan.link_ok = vec![false];
    plan.program_log = vec![Some(String::from("stage mismatch"))];
    let mut ctx = GlContext::new(plan);
    let r = ShaderProgram::new(
        &mut ctx,
        "vertex source",
        "fragment source",
        &["vertexPosition"],
        &["vertexTransform"],
    );
    assert_eq!(
        r.unwrap_err(),
        RenderError::ShaderLink { message: Some(String::from("stage mismatch")) }
    );
    assert_eq!(ctx.shaders.len(), 0);
    assert_eq!(ctx.programs.len(), 0);
    assert_eq!(count_calls(&ctx, |c| matches!(c, GlCall::DeleteProgram { .. })), 1);
    assert_eq!(count_calls(&ctx, |c| matches!(c, GlCall::DeleteShader { .. })), 2);
}

#[test]
fn attribute_lookup_of_unrequested_name_is_absent() {
    let mut ctx = GlContext::new(ok_plan());
    let sp = ShaderProgram::new(
        &mut ctx,
        "vertex source",
        "fragment source",
        &["vertexPosition"],
        &["vertexTransform"],
    )
    .unwrap();
    assert_eq!(sp.attribute("neverRequested"), None);
    assert_eq!(sp.attribute("vertexPosition"), Some(0));
}

#[test]
fn attribute_requested_but_unresolved_is_absent() {
    let mut plan = ok_plan();
    plan.attribs = vec![];
    let mut ctx = GlContext::new(plan);
    let sp = ShaderProgram::new(
        &mut ctx,
        "vertex source",
        "fragment source",
        &["vertexPosition"],
        &["vertexTransform"],
    )
    .unwrap();
    assert_eq!(sp.attribute("vertexPosition"), None);
}

#[test]
fn uniform_requested_but_unresolved_is_absent() {
    let mut plan = ok_plan();
    plan.uniforms = vec![];
    let mut ctx = GlContext::new(plan);
    let sp = ShaderProgram::new(
        &mut ctx,
        "vertex source",
        "fragment source",
        &["vertexPosition"],
        &["vertexTransform"],
    )
    .unwrap();
    assert_eq!(sp.uniform("vertexTransform"), None);
    assert_eq!(sp.uniform("neverRequested"), None);
}

#[test]
fn cube_reports_caller_error_when_uniform_never_resolves() {
    let mut plan = ok_plan();
    plan.uniforms = vec![];
    let mut ctx = GlContext::new(plan);
    let r = Cube::new(&mut ctx);
    assert_eq!(
        r.unwrap_err(),
        RenderError::CallerError { name: String::from("vertexTransform") }
    );
    assert_eq!(ctx.buffers.len(), 0);
    assert_eq!(ctx.shaders.len(), 0);
    assert_eq!(ctx.programs.len(), 0);
}

#[test]
fn transform_at_zero_has_identity_rotation() {
    let t = transform_of(0);
    assert_eq!(t.rot_x_millirad, 0);
    assert_eq!(t.rot_y_millirad, 0);
    assert_eq!(t.rot_z_millirad, 0);
    assert_eq!(t.perspective_depth, 50);
    assert_eq!(t.translate_z, 1);
    assert_eq!(t.scale_percent, 50);
}

#[test]
fn render_uploads_identical_data_for_equal_times() {
    let mut ctx = GlContext::new(ok_plan());
    let cube = Cube::new(&mut ctx).unwrap();
    let len0 = ctx.calls.len();
    cube.render(&mut ctx, 250);
    let len1 = ctx.calls.len();
    cube.render(&mut ctx, 250);
    let first: Vec<GlCall> = ctx.calls[len0..len1].to_vec();
    let second: Vec<GlCall> = ctx.calls[len1..].to_vec();
    assert_eq!(first, second);
}

#[test]
fn indices_all_reference_cube_vertices() {
    let indices = cube_indices();
    assert_eq!(indices.len(), 36);
    let vertices = vertex_components();
    assert_eq!(vertices.len(), 24);
    let vertex_count = (vertices.len() / 3) as u16;
    for i in indices {
        assert!(i < vertex_count);
    }
    for v in vertices {
        assert!(v == 1 || v == -1);
    }
}

#[test]
fn destroy_releases_two_buffers_and_one_program() {
    let mut ctx = GlContext::new(ok_plan());
    let cube = Cube::new(&mut ctx).unwrap();
    cube.destroy(&mut ctx);
    assert_eq!(ctx.buffers.len(), 0);
    assert_eq!(ctx.programs.len(), 0);
    assert_eq!(count_calls(&ctx, |c| matches!(c, GlCall::DeleteBuffer { .. })), 2);
    assert_eq!(count_calls(&ctx, |c| matches!(c, GlCall::DeleteProgram { .. })), 1);
}

#[test]
fn init_renderer_starts_the_loop_and_frames_reschedule() {
    let mut plan = ok_plan();
    plan.frame_ok = vec![true, true, false];
    let mut ctx = GlContext::new(plan);
    let renderer = init_renderer(&mut ctx, 100).unwrap();
    assert!(renderer.driver.scheduled);
    assert_eq!(renderer.driver.start_time_ms, 100);

    let rescheduled = renderer.driver.frame(&mut ctx, &renderer.cube, 1100);
    assert!(rescheduled);
    assert_eq!(count_calls(&ctx, |c| matches!(c, GlCall::Clear)), 1);
    assert_eq!(count_calls(&ctx, |c| matches!(c, GlCall::RequestFrame { .. })), 2);
    // The frame renders at the time elapsed since the session start.
    assert_eq!(
        count_calls(&ctx, |c| match c {
            GlCall::UniformMatrix { transform, .. } => transform.rot_x_millirad == 1000,
            _ => false,
        }),
        1
    );

    let rescheduled = renderer.driver.frame(&mut ctx, &renderer.cube, 1200);
    assert!(!rescheduled);
}

#[test]
fn init_renderer_surfaces_refused_first_registration() {
    let mut plan = ok_plan();
    plan.frame_ok = vec![false];
    let mut ctx = GlContext::new(plan);
    let renderer = init_renderer(&mut ctx, 0).unwrap();
    assert!(!renderer.driver.scheduled);
}

#[test]
fn init_renderer_propagates_construction_failure() {
    let mut plan = ok_plan();
    plan.shader_ok = vec![false];
    let mut ctx = GlContext::new(plan);
    let r = init_renderer(&mut ctx, 0);
    assert_eq!(
        r.unwrap_err(),
        RenderError::ResourceExhausted { resource: ResourceKind::Shader }
    );
    assert_eq!(ctx.buffers.len(), 0);
    assert_eq!(ctx.shaders.len(), 0);
    assert_eq!(ctx.programs.len(), 0);
}

#[test]
fn render_rebinds_state_every_frame() {
    let mut ctx = GlContext::new(ok_plan());
    let cube = Cube::new(&mut ctx).unwrap();
    let before = ctx.calls.len();
    cube.render(&mut ctx, 16);
    cube.render(&mut ctx, 32);
    let per_frame: Vec<&GlCall> = ctx.calls[before..].iter().collect();
    assert_eq!(
        per_frame.iter().filter(|c| matches!(c, GlCall::EnableDepthTest)).count(),
        2
    );
    assert_eq!(
        per_frame.iter().filter(|c| matches!(c, GlCall::BindBuffer { .. })).count(),
        4
    );
    assert_eq!(
        per_frame.iter().filter(|c| matches!(c, GlCall::UseProgram { .. })).count(),
        2
    );
    assert_eq!(
        per_frame
            .iter()
            .filter(|c| matches!(c, GlCall::EnableVertexAttribArray { slot: 0 }))
            .count(),
        2
    );
}
