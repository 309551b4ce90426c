use crayon::backend::{BackendCall, ARRAY_BUFFER};
use crayon::device::Device;
use crayon::errors::{BackendError, Error};
use crayon::flush::ViewKey;
use crayon::frame::{NamePtr, TaskBuffer, TexturesPtr, UniformsPtr};
use crayon::handle::{
    FrameBufferHandle, Handle, IndexBufferHandle, PipelineStateHandle, TextureHandle,
    VertexBufferHandle, ViewStateHandle,
};
use crayon::resource::{
    AttributeLayout, BufferHint, Color, Comparison, CullFace, FrontFaceOrder, IndexBufferSetup,
    IndexFormat, PipelineStateSetup, Primitive, RenderState, RenderTextureFormat,
    RenderTextureSetup, UniformVariable, VertexAttribute, VertexAttributeDesc, VertexBufferSetup,
    VertexFormat, VertexLayout, ViewStateSetup,
};
use crayon::script::{Missing, Request, Run, Script, Step};

const NO_TEXTURES: TexturesPtr = TexturesPtr { offset: 0, len: 0 };
const NO_UNIFORMS: UniformsPtr = UniformsPtr { offset: 0, len: 0 };

fn layout() -> VertexLayout {
    VertexLayout {
        stride: 8,
        len: 1,
        offset: [0; 12],
        elements: [VertexAttributeDesc {
            name: VertexAttribute::Position,
            format: VertexFormat::Float,
            size: 2,
            normalized: false,
        }; 12],
    }
}

fn attributes() -> AttributeLayout {
    AttributeLayout { len: 1, elements: [(VertexAttribute::Position, 2); 12] }
}

fn state() -> RenderState {
    RenderState {
        cull_face: CullFace::Front,
        front_face_order: FrontFaceOrder::Clockwise,
        depth_test: Comparison::Always,
        depth_write: false,
        depth_write_offset: Some((1, 2)),
        color_blend: None,
        color_write: (true, false, true, false),
    }
}

fn view_setup(order: u32, sequence: bool, mark: u16) -> ViewStateSetup {
    ViewStateSetup {
        framebuffer: None,
        clear_color: None,
        clear_depth: None,
        clear_stencil: None,
        viewport: ((mark, 0), None),
        sequence,
        order,
    }
}

fn view(index: u32) -> ViewStateHandle {
    ViewStateHandle(Handle::new(index, 0))
}

fn pipeline(index: u32) -> PipelineStateHandle {
    PipelineStateHandle(Handle::new(index, 0))
}

fn vb(index: u32) -> VertexBufferHandle {
    VertexBufferHandle(Handle::new(index, 0))
}

fn ib(index: u32) -> IndexBufferHandle {
    IndexBufferHandle(Handle::new(index, 0))
}

fn texture(index: u32) -> TextureHandle {
    TextureHandle(Handle::new(index, 0))
}

/// A device with pipelines 0 and 1 (programs 100 and 101), vertex buffer 0
/// (buffer 200) and index buffer 0 (buffer 300).
fn device() -> Device {
    let mut device = Device::new();
    let setup = PipelineStateSetup { layout: attributes(), state: state() };
    device.finish_create_pipeline(pipeline(0), setup, 100).unwrap();
    device.finish_create_pipeline(pipeline(1), setup, 101).unwrap();
    let vertices = VertexBufferSetup { hint: BufferHint::Dynamic, layout: layout(), num: 6 };
    device.finish_create_vertex_buffer(vb(0), vertices, Ok(200)).unwrap();
    let indices = IndexBufferSetup { hint: BufferHint::Dynamic, format: IndexFormat::U32, num: 6 };
    device.finish_create_index_buffer(ib(0), indices, Ok(300)).unwrap();
    device
}

fn draw(device: &mut Device, view: ViewStateHandle, pipeline: PipelineStateHandle, priority: u64, from: u32) {
    device
        .submit(priority, view, pipeline, NO_TEXTURES, NO_UNIFORMS, vb(0), None, Primitive::Triangles, from, 3)
        .unwrap();
}

fn binding(program: u32) -> Vec<Step> {
    vec![
        Step::Call(BackendCall::BindProgram { id: program }),
        Step::Call(BackendCall::SetCullFace(CullFace::Front)),
        Step::Call(BackendCall::SetFrontFaceOrder(FrontFaceOrder::Clockwise)),
        Step::Call(BackendCall::SetDepthTest(Comparison::Always)),
        Step::Call(BackendCall::SetDepthWrite { enable: false, offset: Some((1, 2)) }),
        Step::Call(BackendCall::SetColorBlend(None)),
        Step::Call(BackendCall::SetColorWrite(true, false, true, false)),
    ]
}

fn open_view(mark: u16, size: (u32, u32)) -> Vec<Step> {
    vec![
        Step::Call(BackendCall::BindFramebuffer { id: 0, check: false }),
        Step::Call(BackendCall::Clear { color: None, depth: None, stencil: None }),
        Step::Call(BackendCall::SetViewport { position: (mark, 0), size }),
    ]
}

fn issue_arrays(from: u32) -> Vec<Step> {
    vec![
        Step::Call(BackendCall::BindBuffer { target: 0x8892, id: 200 }),
        Step::Call(BackendCall::BindAttributeLayout { attributes: attributes(), layout: layout() }),
        Step::Call(BackendCall::DrawArrays { primitive: Primitive::Triangles, from, len: 3 }),
        Step::Call(BackendCall::Check),
    ]
}

fn viewport_marks(script: &Script) -> Vec<u16> {
    let mut marks = Vec::new();
    for step in &script.steps {
        if let Step::Call(BackendCall::SetViewport { position, .. }) = step {
            marks.push(position.0);
        }
    }
    marks
}

fn drawn_from(script: &Script) -> Vec<u32> {
    let mut drawn = Vec::new();
    for step in &script.steps {
        if let Step::Call(BackendCall::DrawArrays { from, .. }) = step {
            drawn.push(*from);
        }
    }
    drawn
}

fn programs_bound(script: &Script) -> Vec<u32> {
    let mut bound = Vec::new();
    for step in &script.steps {
        if let Step::Call(BackendCall::BindProgram { id }) = step {
            bound.push(*id);
        }
    }
    bound
}

/// Carries the script out against a backend that finds every name but
/// those in `missing` and fails at call number `fail_at`, if given; returns
/// the calls made and how the run ended.
fn carry_out(
    script: Script,
    missing: &[&[u8]],
    fail_at: Option<usize>,
) -> (Vec<BackendCall>, Vec<Vec<u8>>, Result<(), Error>) {
    let mut run = Run::new(script);
    let mut calls = Vec::new();
    let mut located = Vec::new();
    let mut made = 0;
    loop {
        let answer = match run.request() {
            None => break,
            Some(Request::Call(call)) => {
                calls.push(call);
                Ok(0)
            }
            Some(Request::Locate { name, .. }) => {
                located.push(name.to_vec());
                if missing.contains(&name) {
                    Ok(-1)
                } else {
                    Ok(located.len() as i32)
                }
            }
        };
        let answer = if fail_at == Some(made) { Err(BackendError { code: 9 }) } else { answer };
        made += 1;
        run.resume(answer);
    }
    (calls, located, run.into_result().unwrap())
}

#[test]
fn views_flush_by_descending_order_then_by_slot() {
    let mut device = device();
    device.create_view(view(0), view_setup(0, false, 1)).unwrap();
    device.create_view(view(1), view_setup(5, false, 2)).unwrap();
    device.create_view(view(2), view_setup(10, false, 3)).unwrap();
    assert_eq!(
        device.flush_order(),
        vec![
            ViewKey { order: 10, index: 2 },
            ViewKey { order: 5, index: 1 },
            ViewKey { order: 0, index: 0 },
        ]
    );
    let script = device.flush(&TaskBuffer::new(), (640, 480));
    assert_eq!(viewport_marks(&script), vec![3, 2, 1]);
    assert_eq!(script.outcome, Ok(()));
}

#[test]
fn views_of_equal_order_flush_by_slot() {
    let mut device = device();
    device.create_view(view(0), view_setup(0, false, 1)).unwrap();
    device.create_view(view(1), view_setup(7, false, 2)).unwrap();
    device.create_view(view(3), view_setup(0, false, 4)).unwrap();
    device.create_view(view(4), view_setup(7, false, 5)).unwrap();
    device.create_view(view(5), view_setup(9, false, 6)).unwrap();
    let script = device.flush(&TaskBuffer::new(), (1, 1));
    assert_eq!(viewport_marks(&script), vec![6, 2, 5, 1, 4]);
}

#[test]
fn deleted_views_are_not_flushed() {
    let mut device = device();
    device.create_view(view(0), view_setup(0, false, 1)).unwrap();
    device.create_view(view(1), view_setup(3, false, 2)).unwrap();
    device.delete_view(view(1)).unwrap();
    let script = device.flush(&TaskBuffer::new(), (1, 1));
    assert_eq!(viewport_marks(&script), vec![1]);
}

#[test]
fn vertex_buffers_are_bound_to_the_array_target() {
    assert_eq!(ARRAY_BUFFER, 0x8892);
    let mut device = device();
    device.create_view(view(0), view_setup(0, false, 0)).unwrap();
    draw(&mut device, view(0), pipeline(0), 0, 0);
    let script = device.flush(&TaskBuffer::new(), (1, 1));
    assert!(script.steps.contains(&Step::Call(BackendCall::BindBuffer { target: 34962, id: 200 })));
}

#[test]
fn flush_of_nothing_is_empty() {
    let mut device = Device::new();
    let script = device.flush(&TaskBuffer::new(), (1, 1));
    assert!(script.steps.is_empty());
    assert_eq!(script.outcome, Ok(()));
    assert!(device.flush_order().is_empty());
}

#[test]
fn draw_calls_are_realized_by_descending_priority() {
    let mut device = device();
    device.create_view(view(0), view_setup(0, false, 0)).unwrap();
    draw(&mut device, view(0), pipeline(0), 3, 30);
    draw(&mut device, view(0), pipeline(0), 1, 10);
    draw(&mut device, view(0), pipeline(0), 2, 20);
    let script = device.flush(&TaskBuffer::new(), (1, 1));
    assert_eq!(drawn_from(&script), vec![30, 20, 10]);
    let queued: Vec<u32> =
        device.views.get(view(0).0).unwrap().drawcalls.iter().map(|dc| dc.from).collect();
    assert_eq!(queued, vec![30, 10, 20]);
}

#[test]
fn draw_calls_of_a_sequence_are_realized_as_submitted() {
    let mut device = device();
    device.create_view(view(0), view_setup(0, true, 0)).unwrap();
    draw(&mut device, view(0), pipeline(0), 3, 30);
    draw(&mut device, view(0), pipeline(0), 1, 10);
    draw(&mut device, view(0), pipeline(0), 2, 20);
    let script = device.flush(&TaskBuffer::new(), (1, 1));
    assert_eq!(drawn_from(&script), vec![30, 10, 20]);
}

#[test]
fn draw_calls_of_equal_priority_are_realized_as_submitted() {
    let mut device = device();
    device.create_view(view(0), view_setup(0, false, 0)).unwrap();
    draw(&mut device, view(0), pipeline(0), 1, 1);
    draw(&mut device, view(0), pipeline(0), 5, 2);
    draw(&mut device, view(0), pipeline(0), 1, 3);
    draw(&mut device, view(0), pipeline(0), 5, 4);
    let script = device.flush(&TaskBuffer::new(), (1, 1));
    assert_eq!(drawn_from(&script), vec![2, 4, 1, 3]);
}

#[test]
fn one_draw_call_in_full() {
    let mut device = device();
    device.create_view(view(0), view_setup(0, false, 7)).unwrap();
    draw(&mut device, view(0), pipeline(0), 0, 3);
    let script = device.flush(&TaskBuffer::new(), (640, 480));
    let mut expected = open_view(7, (640, 480));
    expected.extend(binding(100));
    expected.extend(issue_arrays(3));
    assert_eq!(script.steps, expected);
    assert_eq!(script.outcome, Ok(()));
    assert_eq!(device.active_pipeline, Some(pipeline(0)));
}

#[test]
fn shared_pipeline_is_bound_once() {
    let mut device = device();
    device.create_view(view(0), view_setup(0, true, 0)).unwrap();
    draw(&mut device, view(0), pipeline(0), 0, 1);
    draw(&mut device, view(0), pipeline(0), 0, 2);
    draw(&mut device, view(0), pipeline(0), 0, 3);
    let script = device.flush(&TaskBuffer::new(), (1, 1));
    assert_eq!(programs_bound(&script), vec![100]);
    let mut expected = open_view(0, (1, 1));
    expected.extend(binding(100));
    expected.extend(issue_arrays(1));
    expected.extend(issue_arrays(2));
    expected.extend(issue_arrays(3));
    assert_eq!(script.steps, expected);

    let (calls, _, result) = carry_out(script, &[], None);
    assert_eq!(result, Ok(()));
    let binds = calls.iter().filter(|call| matches!(call, BackendCall::BindProgram { .. })).count();
    let cull = calls.iter().filter(|call| matches!(call, BackendCall::SetCullFace(_))).count();
    let draws = calls.iter().filter(|call| matches!(call, BackendCall::DrawArrays { .. })).count();
    assert_eq!((binds, cull, draws), (1, 1, 3));
}

#[test]
fn changed_pipeline_is_bound_again() {
    let mut device = device();
    device.create_view(view(0), view_setup(0, true, 0)).unwrap();
    draw(&mut device, view(0), pipeline(0), 0, 1);
    draw(&mut device, view(0), pipeline(0), 0, 2);
    draw(&mut device, view(0), pipeline(1), 0, 3);
    draw(&mut device, view(0), pipeline(0), 0, 4);
    let script = device.flush(&TaskBuffer::new(), (1, 1));
    assert_eq!(programs_bound(&script), vec![100, 101, 100]);
    assert_eq!(device.active_pipeline, Some(pipeline(0)));
}

#[test]
fn pipeline_stays_bound_across_views_and_flushes() {
    let mut device = device();
    device.create_view(view(0), view_setup(0, true, 0)).unwrap();
    device.create_view(view(1), view_setup(0, true, 1)).unwrap();
    draw(&mut device, view(0), pipeline(1), 0, 1);
    draw(&mut device, view(1), pipeline(1), 0, 2);
    let script = device.flush(&TaskBuffer::new(), (1, 1));
    assert_eq!(programs_bound(&script), vec![101]);
    let again = device.flush(&TaskBuffer::new(), (1, 1));
    assert!(programs_bound(&again).is_empty());
    device.run_one_frame();
    draw(&mut device, view(0), pipeline(1), 0, 1);
    let fresh = device.flush(&TaskBuffer::new(), (1, 1));
    assert_eq!(programs_bound(&fresh), vec![101]);
}

#[test]
fn binding_restores_the_uniforms_of_the_pipeline() {
    let mut device = device();
    device.update_pipeline_uniform(pipeline(0), "time", &UniformVariable::F32(7)).unwrap();
    device.update_pipeline_uniform(pipeline(0), "tint", &UniformVariable::Vector4f([1, 2, 3, 4])).unwrap();
    device.create_view(view(0), view_setup(0, false, 0)).unwrap();
    draw(&mut device, view(0), pipeline(0), 0, 1);
    let script = device.flush(&TaskBuffer::new(), (1, 1));
    let mut expected = open_view(0, (1, 1));
    expected.extend(binding(100));
    expected.push(Step::Uniform {
        program: 100,
        name: b"time".to_vec(),
        variable: UniformVariable::F32(7),
        missing: Missing::Skip,
    });
    expected.push(Step::Uniform {
        program: 100,
        name: b"tint".to_vec(),
        variable: UniformVariable::Vector4f([1, 2, 3, 4]),
        missing: Missing::Skip,
    });
    expected.extend(issue_arrays(1));
    assert_eq!(script.steps, expected);

    let (calls, located, result) = carry_out(script, &[b"time"], None);
    assert_eq!(result, Ok(()));
    assert_eq!(located, vec![b"time".to_vec(), b"tint".to_vec()]);
    let bound: Vec<&BackendCall> =
        calls.iter().filter(|call| matches!(call, BackendCall::BindUniform { .. })).collect();
    assert_eq!(
        bound,
        vec![&BackendCall::BindUniform { location: 2, variable: UniformVariable::Vector4f([1, 2, 3, 4]) }]
    );
}

#[test]
fn uniforms_and_textures_of_a_draw_call_are_bound_by_name() {
    let mut device = device();
    device.finish_create_render_texture(
        texture(4),
        RenderTextureSetup { format: RenderTextureFormat::RGBA8, dimensions: (2, 2) },
        Ok(400),
    ).unwrap();
    device.finish_create_render_texture(
        texture(5),
        RenderTextureSetup { format: RenderTextureFormat::RGBA8, dimensions: (2, 2) },
        Ok(401),
    ).unwrap();
    device.create_view(view(0), view_setup(0, false, 0)).unwrap();
    let mut buf = TaskBuffer::new();
    let mvp = buf.extend_from_str("mvp");
    let base = buf.extend_from_str("base");
    let detail = buf.extend_from_str("detail");
    let uniforms = buf.extend_from_uniforms(&[(mvp, UniformVariable::I32(-4))]);
    let textures = buf.extend_from_textures(&[(base, texture(4)), (detail, texture(5))]);
    device
        .submit(0, view(0), pipeline(0), textures, uniforms, vb(0), Some(ib(0)), Primitive::Lines, 2, 4)
        .unwrap();
    let script = device.flush(&buf, (1, 1));
    let mut expected = open_view(0, (1, 1));
    expected.extend(binding(100));
    expected.push(Step::Uniform {
        program: 100,
        name: b"mvp".to_vec(),
        variable: UniformVariable::I32(-4),
        missing: Missing::FailUniform,
    });
    expected.push(Step::Uniform {
        program: 100,
        name: b"base".to_vec(),
        variable: UniformVariable::I32(0),
        missing: Missing::FailTexture,
    });
    expected.push(Step::Call(BackendCall::BindTexture { slot: 0, id: 400 }));
    expected.push(Step::Uniform {
        program: 100,
        name: b"detail".to_vec(),
        variable: UniformVariable::I32(1),
        missing: Missing::FailTexture,
    });
    expected.push(Step::Call(BackendCall::BindTexture { slot: 1, id: 401 }));
    expected.push(Step::Call(BackendCall::BindBuffer { target: 0x8892, id: 200 }));
    expected.push(Step::Call(BackendCall::BindAttributeLayout { attributes: attributes(), layout: layout() }));
    expected.push(Step::Call(BackendCall::DrawElements {
        primitive: Primitive::Lines,
        len: 4,
        format: IndexFormat::U32,
        from: 2,
    }));
    expected.push(Step::Call(BackendCall::Check));
    assert_eq!(script.steps, expected);
    assert_eq!(script.outcome, Ok(()));
}

#[test]
fn unresolvable_uniform_aborts_the_flush() {
    let mut device = device();
    device.create_view(view(0), view_setup(0, true, 0)).unwrap();
    let mut buf = TaskBuffer::new();
    let name = buf.extend_from_str("mvp");
    let uniforms = buf.extend_from_uniforms(&[(name, UniformVariable::I32(1))]);
    device
        .submit(0, view(0), pipeline(0), NO_TEXTURES, uniforms, vb(0), None, Primitive::Points, 0, 1)
        .unwrap();
    draw(&mut device, view(0), pipeline(0), 0, 9);
    let script = device.flush(&buf, (1, 1));
    let (calls, _, result) = carry_out(script, &[b"mvp"], None);
    assert_eq!(result, Err(Error::UniformNotFound(b"mvp".to_vec())));
    assert!(calls.iter().all(|call| !matches!(call, BackendCall::DrawArrays { .. })));
    assert_eq!(calls.last(), Some(&BackendCall::SetColorWrite(true, false, true, false)));
}

#[test]
fn unresolvable_texture_aborts_the_flush() {
    let mut device = device();
    device.finish_create_render_texture(
        texture(0),
        RenderTextureSetup { format: RenderTextureFormat::RGB8, dimensions: (2, 2) },
        Ok(400),
    ).unwrap();
    device.create_view(view(0), view_setup(0, true, 0)).unwrap();
    let mut buf = TaskBuffer::new();
    let name = buf.extend_from_str("base");
    let textures = buf.extend_from_textures(&[(name, texture(0))]);
    device
        .submit(0, view(0), pipeline(0), textures, NO_UNIFORMS, vb(0), None, Primitive::Points, 0, 1)
        .unwrap();
    let script = device.flush(&buf, (1, 1));
    let (calls, _, result) = carry_out(script, &[b"base"], None);
    assert_eq!(result, Err(Error::TextureNotFound(b"base".to_vec())));
    assert!(calls.iter().all(|call| !matches!(call, BackendCall::BindTexture { .. })));
}

#[test]
fn backend_failure_aborts_the_flush() {
    let mut device = device();
    device.create_view(view(0), view_setup(0, true, 0)).unwrap();
    draw(&mut device, view(0), pipeline(0), 0, 1);
    draw(&mut device, view(0), pipeline(0), 0, 2);
    let script = device.flush(&TaskBuffer::new(), (1, 1));
    let total = script.steps.len();
    let (calls, _, result) = carry_out(script, &[], Some(4));
    assert_eq!(result, Err(Error::Backend(BackendError { code: 9 })));
    assert_eq!(calls.len(), 5);
    assert!(calls.len() < total);
}

#[test]
fn invalid_texture_handle_ends_the_script_there() {
    let mut device = device();
    device.create_view(view(0), view_setup(0, true, 0)).unwrap();
    let mut buf = TaskBuffer::new();
    let name = buf.extend_from_str("base");
    let textures = buf.extend_from_textures(&[(name, texture(3))]);
    device
        .submit(0, view(0), pipeline(0), textures, NO_UNIFORMS, vb(0), None, Primitive::Points, 0, 1)
        .unwrap();
    draw(&mut device, view(0), pipeline(1), 0, 2);
    let script = device.flush(&buf, (1, 1));
    let mut expected = open_view(0, (1, 1));
    expected.extend(binding(100));
    assert_eq!(script.steps, expected);
    assert_eq!(script.outcome, Err(Error::InvalidTexture(texture(3), b"base".to_vec())));
    assert_eq!(device.active_pipeline, Some(pipeline(0)));
}

#[test]
fn invalid_handles_end_the_script() {
    let mut device = device();
    device.create_view(view(0), view_setup(0, true, 0)).unwrap();
    draw(&mut device, view(0), pipeline(9), 0, 1);
    let script = device.flush(&TaskBuffer::new(), (1, 1));
    assert_eq!(script.steps, open_view(0, (1, 1)));
    assert_eq!(script.outcome, Err(Error::InvalidHandle));
    assert_eq!(device.active_pipeline, None);

    device.run_one_frame();
    device
        .submit(0, view(0), pipeline(0), NO_TEXTURES, NO_UNIFORMS, vb(7), None, Primitive::Points, 0, 1)
        .unwrap();
    let script = device.flush(&TaskBuffer::new(), (1, 1));
    let mut expected = open_view(0, (1, 1));
    expected.extend(binding(100));
    assert_eq!(script.steps, expected);
    assert_eq!(script.outcome, Err(Error::InvalidHandle));

    device.run_one_frame();
    device
        .submit(0, view(0), pipeline(0), NO_TEXTURES, NO_UNIFORMS, vb(0), Some(ib(7)), Primitive::Points, 0, 1)
        .unwrap();
    let script = device.flush(&TaskBuffer::new(), (1, 1));
    assert_eq!(script.steps.len(), 3 + 7 + 2);
    assert_eq!(script.outcome, Err(Error::InvalidHandle));
}

#[test]
fn failed_view_keeps_later_views_from_the_script() {
    let mut device = device();
    device.create_view(view(0), view_setup(2, true, 1)).unwrap();
    device.create_view(view(1), view_setup(1, true, 2)).unwrap();
    draw(&mut device, view(0), pipeline(9), 0, 1);
    draw(&mut device, view(1), pipeline(0), 0, 2);
    let script = device.flush(&TaskBuffer::new(), (1, 1));
    assert_eq!(viewport_marks(&script), vec![1]);
    assert!(drawn_from(&script).is_empty());
    assert_eq!(script.outcome, Err(Error::InvalidHandle));
}

#[test]
fn pointer_outside_the_frame_buffer_ends_the_script() {
    let mut device = device();
    device.create_view(view(0), view_setup(0, true, 0)).unwrap();
    let mut buf = TaskBuffer::new();
    let uniforms = buf.extend_from_uniforms(&[(NamePtr { offset: 0, len: 3 }, UniformVariable::I32(1))]);
    device
        .submit(0, view(0), pipeline(0), NO_TEXTURES, uniforms, vb(0), None, Primitive::Points, 0, 1)
        .unwrap();
    let script = device.flush(&buf, (1, 1));
    assert_eq!(script.steps, open_view(0, (1, 1)));
    assert_eq!(script.outcome, Err(Error::OutOfBounds));

    device.run_one_frame();
    device
        .submit(0, view(0), pipeline(0), TexturesPtr { offset: 0, len: 1 }, NO_UNIFORMS, vb(0), None, Primitive::Points, 0, 1)
        .unwrap();
    let script = device.flush(&TaskBuffer::new(), (1, 1));
    assert_eq!(script.outcome, Err(Error::OutOfBounds));
}

#[test]
fn view_binds_its_framebuffer_and_clears() {
    let mut device = device();
    let fb = FrameBufferHandle(Handle::new(0, 0));
    device.finish_create_framebuffer(fb, Ok(55)).unwrap();
    let mut setup = view_setup(0, false, 3);
    setup.framebuffer = Some(fb);
    setup.clear_color = Some(Color { r: 1, g: 2, b: 3, a: 4 });
    setup.clear_depth = Some(0x3f80_0000);
    setup.clear_stencil = Some(-1);
    setup.viewport = ((3, 4), Some((5, 6)));
    device.create_view(view(0), setup).unwrap();
    let script = device.flush(&TaskBuffer::new(), (640, 480));
    assert_eq!(
        script.steps,
        vec![
            Step::Call(BackendCall::BindFramebuffer { id: 55, check: true }),
            Step::Call(BackendCall::Clear {
                color: Some(Color { r: 1, g: 2, b: 3, a: 4 }),
                depth: Some(0x3f80_0000),
                stencil: Some(-1),
            }),
            Step::Call(BackendCall::SetViewport { position: (3, 4), size: (5, 6) }),
        ]
    );
}

#[test]
fn view_with_missing_framebuffer_ends_the_script() {
    let mut device = device();
    let mut setup = view_setup(0, false, 3);
    setup.framebuffer = Some(FrameBufferHandle(Handle::new(2, 0)));
    device.create_view(view(0), setup).unwrap();
    let script = device.flush(&TaskBuffer::new(), (640, 480));
    assert!(script.steps.is_empty());
    assert_eq!(script.outcome, Err(Error::InvalidHandle));
}

#[test]
fn viewport_takes_the_whole_frame_by_default() {
    let mut device = device();
    device.create_view(view(0), view_setup(0, false, 0)).unwrap();
    let script = device.flush(&TaskBuffer::new(), (100_000, 70_000));
    assert_eq!(script.steps, open_view(0, (100_000, 70_000)));
}

#[test]
fn forgotten_pipeline_is_bound_again() {
    let mut device = device();
    device.create_view(view(0), view_setup(0, true, 0)).unwrap();
    draw(&mut device, view(0), pipeline(0), 0, 1);
    assert_eq!(programs_bound(&device.flush(&TaskBuffer::new(), (1, 1))), vec![100]);
    assert!(programs_bound(&device.flush(&TaskBuffer::new(), (1, 1))).is_empty());
    device.forget_pipeline();
    assert_eq!(device.active_pipeline, None);
    assert_eq!(device.views.get(view(0).0).unwrap().drawcalls.len(), 1);
    assert_eq!(programs_bound(&device.flush(&TaskBuffer::new(), (1, 1))), vec![100]);
}

#[test]
fn bind_pipeline_skips_the_active_one() {
    let device = device();
    let mut steps = Vec::new();
    let mut active = None;
    assert_eq!(device.bind_pipeline(pipeline(1), &mut active, &mut steps).unwrap().id, 101);
    assert_eq!(steps, binding(101));
    assert_eq!(active, Some(pipeline(1)));
    assert_eq!(device.bind_pipeline(pipeline(1), &mut active, &mut steps).unwrap().id, 101);
    assert_eq!(steps.len(), 7);
    assert_eq!(device.bind_pipeline(pipeline(3), &mut active, &mut steps).err(), Some(Error::InvalidHandle));
    assert_eq!(steps.len(), 7);
    assert_eq!(active, Some(pipeline(1)));
}
