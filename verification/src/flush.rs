use crate::backend::{gl_array_buffer, BackendCall, ARRAY_BUFFER};
use crate::device::{Device, DrawCall, PipelineStateObject, ViewStateObject};
use crate::named::named_models;
use crate::errors::{BackendError, Error, ErrorModel};
use crate::frame::{NamePtr, TaskBuffer, TexturesPtr, UniformsPtr};
use crate::handle::{PipelineStateHandle, TextureHandle};
use crate::resource::{PipelineStateSetup, UniformVariable};
use crate::script::{failure_of, step_models, Missing, Script, ScriptModel, Step, StepModel};
use crate::sort::{sort_by_rank, sorted_by_rank, Ranked};
use crate::table::Entry;
use vstd::prelude::*;
use vstd::slice::slice_to_vec;

verus! {

/// The most texture bindings one draw call can have.
pub const MAX_TEXTURES: usize = 0x7fff_ffff;

/// A live view as the flush orders it: its order, and its slot.
#[derive(Clone, Copy, Debug, PartialEq, Eq, Structural)]
pub struct ViewKey {
    pub order: u32,
    pub index: usize,
}

impl Ranked for ViewKey {
    open spec fn rank(&self) -> u64 {
        self.order as u64
    }

    fn get_rank(&self) -> (r: u64) {
        self.order as u64
    }
}

/// The live views among the first `n` slots, in the order of their slots:
/// those of non-zero order if `explicit`, those of order zero if not.
pub open spec fn view_keys(views: Seq<Option<Entry<ViewStateObject>>>, n: nat, explicit: bool) -> Seq<
    ViewKey,
>
    decreases n,
{
    if n == 0 || n > views.len() {
        Seq::empty()
    } else {
        let before = view_keys(views, (n - 1) as nat, explicit);
        match views[n - 1] {
            Some(entry) => if (entry.value.setup.order != 0) == explicit {
                before.push(ViewKey { order: entry.value.setup.order, index: (n - 1) as usize })
            } else {
                before
            },
            None => before,
        }
    }
}

/// The order in which the views are flushed: first those of non-zero order,
/// the highest order first and those of one order by slot; then those of
/// order zero, by slot.
pub open spec fn flush_order(views: Seq<Option<Entry<ViewStateObject>>>) -> Seq<ViewKey> {
    sorted_by_rank(view_keys(views, views.len(), true)) + view_keys(views, views.len(), false)
}

/// The uniform bindings `ptr` reaches in `buf`, each with the bytes of its
/// name; nothing if `ptr` or one of the names reaches outside `buf`.
pub open spec fn named_uniforms(buf: TaskBuffer, ptr: UniformsPtr) -> Option<
    Seq<(Seq<u8>, UniformVariable)>,
> {
    match buf.uniforms_at(ptr) {
        None => None,
        Some(items) => if forall|i: int|
            0 <= i < items.len() ==> buf.name((#[trigger] items[i]).0) is Some {
            Some(items.map_values(|e: (NamePtr, UniformVariable)| (buf.name(e.0)->0, e.1)))
        } else {
            None
        },
    }
}

/// The texture bindings `ptr` reaches in `buf`, each with the bytes of its
/// name; nothing if `ptr` or one of the names reaches outside `buf`, or if
/// there are more than `MAX_TEXTURES` of them.
pub open spec fn named_textures(buf: TaskBuffer, ptr: TexturesPtr) -> Option<
    Seq<(Seq<u8>, TextureHandle)>,
> {
    match buf.textures_at(ptr) {
        None => None,
        Some(items) => if items.len() <= MAX_TEXTURES && forall|i: int|
            0 <= i < items.len() ==> buf.name((#[trigger] items[i]).0) is Some {
            Some(items.map_values(|e: (NamePtr, TextureHandle)| (buf.name(e.0)->0, e.1)))
        } else {
            None
        },
    }
}

/// The steps that bind a pipeline in full: its program, its state, and the
/// values last given to its uniforms, each skipped if the program has no
/// uniform of that name.
pub open spec fn binding_steps(pso: PipelineStateObject) -> Seq<StepModel> {
    seq![
        StepModel::Call(BackendCall::BindProgram { id: pso.id }),
        StepModel::Call(BackendCall::SetCullFace(pso.setup.state.cull_face)),
        StepModel::Call(BackendCall::SetFrontFaceOrder(pso.setup.state.front_face_order)),
        StepModel::Call(BackendCall::SetDepthTest(pso.setup.state.depth_test)),
        StepModel::Call(
            BackendCall::SetDepthWrite {
                enable: pso.setup.state.depth_write,
                offset: pso.setup.state.depth_write_offset,
            },
        ),
        StepModel::Call(BackendCall::SetColorBlend(pso.setup.state.color_blend)),
        StepModel::Call(
            BackendCall::SetColorWrite(
                pso.setup.state.color_write.0,
                pso.setup.state.color_write.1,
                pso.setup.state.color_write.2,
                pso.setup.state.color_write.3,
            ),
        ),
    ] + named_models(pso.uniforms@).map_values(
        |u: (Seq<u8>, UniformVariable)|
            StepModel::Uniform {
                program: pso.id,
                name: u.0,
                variable: u.1,
                missing: Missing::Skip,
            },
    )
}

/// The steps that bind the uniforms of one draw call; a name the program
/// does not have ends the flush.
pub open spec fn uniform_steps(program: u32, uniforms: Seq<(Seq<u8>, UniformVariable)>) -> Seq<
    StepModel,
> {
    uniforms.map_values(
        |u: (Seq<u8>, UniformVariable)|
            StepModel::Uniform {
                program,
                name: u.0,
                variable: u.1,
                missing: Missing::FailUniform,
            },
    )
}

/// The steps that bind texture `id` as number `slot` under `name`: the
/// sampler of that name is given the number, then the texture is bound to it.
pub open spec fn texture_steps(program: u32, name: Seq<u8>, slot: nat, id: u32) -> Seq<StepModel> {
    seq![
        StepModel::Uniform {
            program,
            name,
            variable: UniformVariable::I32(slot as i32),
            missing: Missing::FailTexture,
        },
        StepModel::Call(BackendCall::BindTexture { slot: slot as u32, id }),
    ]
}

/// What a flush has come to: the steps so far, the error that ended it, if
/// one did, and the pipeline that is bound once the steps are taken.
pub ghost struct Plan {
    pub steps: Seq<StepModel>,
    pub failure: Option<ErrorModel>,
    pub active: Option<PipelineStateHandle>,
}

impl Plan {
    /// This plan followed by `steps`.
    pub open spec fn with(self, steps: Seq<StepModel>) -> Plan {
        Plan { steps: self.steps + steps, ..self }
    }

    /// This plan ended by `error`.
    pub open spec fn failed(self, error: ErrorModel) -> Plan {
        Plan { failure: Some(error), ..self }
    }
}

/// `plan` followed by the binding of the first `n` of `textures`, up to the
/// first whose handle reaches nothing.
pub open spec fn plan_textures(
    device: Device,
    plan: Plan,
    program: u32,
    textures: Seq<(Seq<u8>, TextureHandle)>,
    n: nat,
) -> Plan
    decreases n,
{
    if n == 0 || n > textures.len() {
        plan
    } else {
        let before = plan_textures(device, plan, program, textures, (n - 1) as nat);
        let (name, texture) = textures[n - 1];
        if before.failure is Some {
            before
        } else {
            match device.textures.lookup(texture.0) {
                None => before.failed(ErrorModel::InvalidTexture(texture, name)),
                Some(to) => before.with(texture_steps(program, name, (n - 1) as nat, to.id)),
            }
        }
    }
}

/// `plan` with pipeline `pipeline` bound: as it is if that pipeline is
/// bound already, else followed by the steps that bind `pso` in full.
pub open spec fn plan_binding(plan: Plan, pipeline: PipelineStateHandle, pso: PipelineStateObject) -> Plan {
    if plan.active == Some(pipeline) {
        plan
    } else {
        Plan { active: Some(pipeline), ..plan.with(binding_steps(pso)) }
    }
}

/// `plan` followed by what issues the draw of `dc` once its pipeline `pso`,
/// its uniforms and its textures are bound: the vertex buffer is bound with
/// the layouts of pipeline and buffer, the draw is issued, with indices if
/// `dc` has an index buffer, and the backend is asked whether all went
/// well. A buffer handle that reaches nothing ends the plan.
pub open spec fn plan_issue(device: Device, plan: Plan, pso: PipelineStateObject, dc: DrawCall) -> Plan {
    match device.vertex_buffers.lookup(dc.vb.0) {
        None => plan.failed(ErrorModel::InvalidHandle),
        Some(vbo) => {
            let bound = plan.with(
                seq![
                    StepModel::Call(BackendCall::BindBuffer { target: ARRAY_BUFFER, id: vbo.id }),
                    StepModel::Call(
                        BackendCall::BindAttributeLayout {
                            attributes: pso.setup.layout,
                            layout: vbo.setup.layout,
                        },
                    ),
                ],
            );
            match dc.ib {
                Some(ib) => match device.index_buffers.lookup(ib.0) {
                    None => bound.failed(ErrorModel::InvalidHandle),
                    Some(ibo) => bound.with(
                        seq![
                            StepModel::Call(
                                BackendCall::DrawElements {
                                    primitive: dc.primitive,
                                    len: dc.len,
                                    format: ibo.setup.format,
                                    from: dc.from,
                                },
                            ),
                            StepModel::Call(BackendCall::Check),
                        ],
                    ),
                },
                None => bound.with(
                    seq![
                        StepModel::Call(
                            BackendCall::DrawArrays {
                                primitive: dc.primitive,
                                from: dc.from,
                                len: dc.len,
                            },
                        ),
                        StepModel::Call(BackendCall::Check),
                    ],
                ),
            }
        },
    }
}

/// `plan` followed by the draw call `dc`, unless `plan` has failed.
///
/// What the draw call binds by name is read from `buf` first; then its
/// pipeline is bound, unless it is bound already; then its uniforms and its
/// textures are bound; then its vertex buffer with the layouts of both; then
/// the draw is issued, with indices if the draw call has an index buffer;
/// then the backend is asked whether all went well. The first handle that
/// reaches nothing ends the plan.
pub open spec fn plan_draw(device: Device, buf: TaskBuffer, plan: Plan, dc: DrawCall) -> Plan {
    if plan.failure is Some {
        plan
    } else if named_uniforms(buf, dc.uniforms) is None || named_textures(buf, dc.textures) is None {
        plan.failed(ErrorModel::OutOfBounds)
    } else {
        match device.pipelines.lookup(dc.pipeline.0) {
            None => plan.failed(ErrorModel::InvalidHandle),
            Some(pso) => {
                let bound = plan_binding(plan, dc.pipeline, pso).with(
                    uniform_steps(pso.id, named_uniforms(buf, dc.uniforms)->0),
                );
                let textures = named_textures(buf, dc.textures)->0;
                let textured = plan_textures(device, bound, pso.id, textures, textures.len());
                if textured.failure is Some {
                    textured
                } else {
                    plan_issue(device, textured, pso, dc)
                }
            },
        }
    }
}

/// `plan` followed by the first `n` of `draws`.
pub open spec fn plan_draws(device: Device, buf: TaskBuffer, plan: Plan, draws: Seq<DrawCall>, n: nat) -> Plan
    decreases n,
{
    if n == 0 || n > draws.len() {
        plan
    } else {
        plan_draw(device, buf, plan_draws(device, buf, plan, draws, (n - 1) as nat), draws[n - 1])
    }
}

/// The draw calls of a view in the order they are realized: as submitted
/// if the view is a sequence, else by descending priority, those of one
/// priority as submitted.
pub open spec fn realized(view: ViewStateObject) -> Seq<DrawCall> {
    if view.setup.sequence {
        view.drawcalls@
    } else {
        sorted_by_rank(view.drawcalls@)
    }
}

/// `plan` followed by the flush of `view`, unless `plan` has failed: its
/// framebuffer, or the default backbuffer if it has none, is made the
/// target; what the view clears is cleared; the viewport is set, to the size
/// of the view, or to `dimensions` if it has none; then come its draw calls.
pub open spec fn plan_view(
    device: Device,
    buf: TaskBuffer,
    plan: Plan,
    view: ViewStateObject,
    dimensions: (u32, u32),
) -> Plan {
    if plan.failure is Some {
        plan
    } else {
        let target = match view.setup.framebuffer {
            Some(handle) => match device.framebuffers.lookup(handle.0) {
                Some(fbo) => Some(BackendCall::BindFramebuffer { id: fbo.id, check: true }),
                None => None,
            },
            None => Some(BackendCall::BindFramebuffer { id: 0, check: false }),
        };
        match target {
            None => plan.failed(ErrorModel::InvalidHandle),
            Some(bind) => {
                let size = match view.setup.viewport.1 {
                    Some(size) => (size.0 as u32, size.1 as u32),
                    None => dimensions,
                };
                let opened = plan.with(
                    seq![
                        StepModel::Call(bind),
                        StepModel::Call(
                            BackendCall::Clear {
                                color: view.setup.clear_color,
                                depth: view.setup.clear_depth,
                                stencil: view.setup.clear_stencil,
                            },
                        ),
                        StepModel::Call(
                            BackendCall::SetViewport { position: view.setup.viewport.0, size },
                        ),
                    ],
                );
                plan_draws(device, buf, opened, realized(view), realized(view).len())
            },
        }
    }
}

/// `plan` followed by the flush of the views that the first `n` of `keys`
/// name; a key that names no live view adds nothing.
pub open spec fn plan_views(
    device: Device,
    buf: TaskBuffer,
    plan: Plan,
    keys: Seq<ViewKey>,
    dimensions: (u32, u32),
    n: nat,
) -> Plan
    decreases n,
{
    if n == 0 || n > keys.len() {
        plan
    } else {
        let before = plan_views(device, buf, plan, keys, dimensions, (n - 1) as nat);
        let index = keys[n - 1].index;
        if index < device.views@.len() && device.views@[index as int] is Some {
            plan_view(device, buf, before, device.views@[index as int]->0.value, dimensions)
        } else {
            before
        }
    }
}

/// What flushing `device` comes to: the flush of its views in flush order,
/// starting with the pipeline that is bound.
pub open spec fn flush_plan(device: Device, buf: TaskBuffer, dimensions: (u32, u32)) -> Plan {
    let keys = flush_order(device.views@);
    plan_views(
        device,
        buf,
        Plan { steps: Seq::empty(), failure: None, active: device.active_pipeline },
        keys,
        dimensions,
        keys.len(),
    )
}

proof fn lemma_textures_stay_failed(
    device: Device,
    plan: Plan,
    program: u32,
    textures: Seq<(Seq<u8>, TextureHandle)>,
    n: nat,
    m: nat,
)
    requires
        n <= m <= textures.len(),
        plan_textures(device, plan, program, textures, n).failure is Some,
    ensures
        plan_textures(device, plan, program, textures, m) == plan_textures(
            device,
            plan,
            program,
            textures,
            n,
        ),
    decreases m,
{
    if n < m {
        lemma_textures_stay_failed(device, plan, program, textures, n, (m - 1) as nat);
    }
}

proof fn lemma_draws_stay_failed(
    device: Device,
    buf: TaskBuffer,
    plan: Plan,
    draws: Seq<DrawCall>,
    n: nat,
    m: nat,
)
    requires
        n <= m <= draws.len(),
        plan_draws(device, buf, plan, draws, n).failure is Some,
    ensures
        plan_draws(device, buf, plan, draws, m) == plan_draws(device, buf, plan, draws, n),
    decreases m,
{
    if n < m {
        lemma_draws_stay_failed(device, buf, plan, draws, n, (m - 1) as nat);
    }
}

proof fn lemma_views_stay_failed(
    device: Device,
    buf: TaskBuffer,
    plan: Plan,
    keys: Seq<ViewKey>,
    dimensions: (u32, u32),
    n: nat,
    m: nat,
)
    requires
        n <= m <= keys.len(),
        plan_views(device, buf, plan, keys, dimensions, n).failure is Some,
    ensures
        plan_views(device, buf, plan, keys, dimensions, m) == plan_views(
            device,
            buf,
            plan,
            keys,
            dimensions,
            n,
        ),
    decreases m,
{
    if n < m {
        lemma_views_stay_failed(device, buf, plan, keys, dimensions, n, (m - 1) as nat);
    }
}

/// The plan that `steps` and `active` stand for while nothing has failed.
pub open spec fn plan_of(steps: Seq<Step>, active: Option<PipelineStateHandle>) -> Plan {
    Plan { steps: step_models(steps), failure: None, active }
}

fn emit(steps: &mut Vec<Step>, step: Step)
    ensures
        step_models(final(steps)@) == step_models(old(steps)@).push(step@),
{
    steps.push(step);
    assert(step_models(steps@) =~= step_models(old(steps)@).push(step@));
}

fn emit_call(steps: &mut Vec<Step>, call: BackendCall)
    ensures
        step_models(final(steps)@) == step_models(old(steps)@).push(StepModel::Call(call)),
{
    emit(steps, Step::Call(call));
}

fn resolve_uniforms<'a>(buf: &'a TaskBuffer, ptr: UniformsPtr) -> (r: Option<
    &'a [(NamePtr, UniformVariable)],
>)
    ensures
        match r {
            Some(items) => buf.uniforms_at(ptr) == Some(items@) && named_uniforms(*buf, ptr)
                is Some,
            None => named_uniforms(*buf, ptr) is None,
        },
{
    let items = match buf.as_uniforms(ptr) {
        Some(items) => items,
        None => {
            return None;
        },
    };
    let mut i: usize = 0;
    while i < items.len()
        invariant
            i <= items@.len(),
            buf.uniforms_at(ptr) == Some(items@),
            forall|k: int| 0 <= k < i ==> buf.name((#[trigger] items@[k]).0) is Some,
        decreases items.len() - i,
    {
        if buf.as_bytes(items[i].0).is_none() {
            return None;
        }
        i += 1;
    }
    Some(items)
}

fn resolve_textures<'a>(buf: &'a TaskBuffer, ptr: TexturesPtr) -> (r: Option<
    &'a [(NamePtr, TextureHandle)],
>)
    ensures
        match r {
            Some(items) => buf.textures_at(ptr) == Some(items@) && named_textures(*buf, ptr)
                is Some,
            None => named_textures(*buf, ptr) is None,
        },
{
    let items = match buf.as_textures(ptr) {
        Some(items) => items,
        None => {
            return None;
        },
    };
    if items.len() > MAX_TEXTURES {
        return None;
    }
    let mut i: usize = 0;
    while i < items.len()
        invariant
            i <= items@.len(),
            buf.textures_at(ptr) == Some(items@),
            forall|k: int| 0 <= k < i ==> buf.name((#[trigger] items@[k]).0) is Some,
        decreases items.len() - i,
    {
        if buf.as_bytes(items[i].0).is_none() {
            return None;
        }
        i += 1;
    }
    Some(items)
}

impl Device {
    /// Adds to `steps` what binds `pipeline`, unless `active` says that it
    /// is bound already, and makes it the active one. Fails, and changes
    /// nothing, if `pipeline` reaches nothing.
    pub fn bind_pipeline<'a>(
        &'a self,
        pipeline: PipelineStateHandle,
        active: &mut Option<PipelineStateHandle>,
        steps: &mut Vec<Step>,
    ) -> (r: Result<&'a PipelineStateObject, Error>)
        ensures
            match self.pipelines.lookup(pipeline.0) {
                None => r matches Err(error) && error@ == ErrorModel::InvalidHandle && *final(steps)
                    == *old(steps) && *final(active) == *old(active),
                Some(pso) => r matches Ok(bound) && *bound == pso && plan_of(
                    final(steps)@,
                    *final(active),
                ) == plan_binding(plan_of(old(steps)@, *old(active)), pipeline, pso),
            },
    {
        let pso = match self.pipelines.get(pipeline.0) {
            Some(pso) => pso,
            None => {
                return Err(Error::InvalidHandle);
            },
        };
        let bound = match *active {
            Some(v) => v == pipeline,
            None => false,
        };
        if bound {
            return Ok(pso);
        }
        let ghost base = step_models(steps@);
        let state = &pso.setup.state;
        emit_call(steps, BackendCall::BindProgram { id: pso.id });
        emit_call(steps, BackendCall::SetCullFace(state.cull_face));
        emit_call(steps, BackendCall::SetFrontFaceOrder(state.front_face_order));
        emit_call(steps, BackendCall::SetDepthTest(state.depth_test));
        emit_call(
            steps,
            BackendCall::SetDepthWrite {
                enable: state.depth_write,
                offset: state.depth_write_offset,
            },
        );
        emit_call(steps, BackendCall::SetColorBlend(state.color_blend));
        emit_call(
            steps,
            BackendCall::SetColorWrite(
                state.color_write.0,
                state.color_write.1,
                state.color_write.2,
                state.color_write.3,
            ),
        );
        let ghost all = binding_steps(*pso);
        assert(step_models(steps@) =~= base + all.take(7));
        let mut i: usize = 0;
        while i < pso.uniforms.len()
            invariant
                i <= pso.uniforms@.len(),
                all == binding_steps(*pso),
                all.len() == 7 + pso.uniforms@.len(),
                step_models(steps@) == base + all.take(7 + i),
            decreases pso.uniforms.len() - i,
        {
            let name = slice_to_vec(pso.uniforms[i].0.as_slice());
            emit(
                steps,
                Step::Uniform {
                    program: pso.id,
                    name,
                    variable: pso.uniforms[i].1,
                    missing: Missing::Skip,
                },
            );
            assert(all.take(7 + i + 1) =~= all.take(7 + i).push(all[7 + i]));
            assert(step_models(steps@) =~= base + all.take(7 + i + 1));
            i += 1;
        }
        assert(all.take(7 + i) =~= all);
        *active = Some(pipeline);
        Ok(pso)
    }
}

impl Device {
    /// Adds to `steps` what realizes the draw call `dc`, and keeps `active`
    /// up to date. The first thing that is wrong ends the work with its
    /// error; the steps added up to there stay.
    #[verifier::loop_isolation(false)]
    pub fn plan_draw_call(
        &self,
        buf: &TaskBuffer,
        dc: &DrawCall,
        active: &mut Option<PipelineStateHandle>,
        steps: &mut Vec<Step>,
    ) -> (r: Result<(), Error>)
        ensures
            (Plan {
                steps: step_models(final(steps)@),
                failure: failure_of(r),
                active: *final(active),
            }) == plan_draw(*self, *buf, plan_of(old(steps)@, *old(active)), *dc),
    {
        let uniforms = match resolve_uniforms(buf, dc.uniforms) {
            Some(uniforms) => uniforms,
            None => {
                return Err(Error::OutOfBounds);
            },
        };
        let textures = match resolve_textures(buf, dc.textures) {
            Some(textures) => textures,
            None => {
                return Err(Error::OutOfBounds);
            },
        };
        let pso = match self.bind_pipeline(dc.pipeline, active, steps) {
            Ok(pso) => pso,
            Err(error) => {
                return Err(error);
            },
        };
        let ghost bound = plan_binding(plan_of(old(steps)@, *old(active)), dc.pipeline, *pso);
        let ghost named = named_uniforms(*buf, dc.uniforms)->0;
        let ghost wanted = uniform_steps(pso.id, named);
        let mut i: usize = 0;
        while i < uniforms.len()
            invariant
                i <= uniforms@.len(),
                buf.uniforms_at(dc.uniforms) == Some(uniforms@),
                named_uniforms(*buf, dc.uniforms) == Some(named),
                wanted == uniform_steps(pso.id, named),
                step_models(steps@) == bound.steps + wanted.take(i as int),
            decreases uniforms.len() - i,
        {
            assert(buf.name(uniforms@[i as int].0) is Some);
            let name = slice_to_vec(buf.as_bytes(uniforms[i].0).unwrap());
            emit(
                steps,
                Step::Uniform {
                    program: pso.id,
                    name,
                    variable: uniforms[i].1,
                    missing: Missing::FailUniform,
                },
            );
            assert(wanted.take(i + 1) =~= wanted.take(i as int).push(wanted[i as int]));
            assert(step_models(steps@) =~= bound.steps + wanted.take(i + 1));
            i += 1;
        }
        assert(wanted.take(i as int) =~= wanted);
        let ghost with_uniforms = bound.with(wanted);
        let ghost bindings = named_textures(*buf, dc.textures)->0;
        let mut j: usize = 0;
        while j < textures.len()
            invariant
                j <= textures@.len(),
                textures@.len() <= MAX_TEXTURES,
                buf.textures_at(dc.textures) == Some(textures@),
                named_textures(*buf, dc.textures) == Some(bindings),
                bindings.len() == textures@.len(),
                (Plan { steps: step_models(steps@), failure: None, active: *active })
                    == plan_textures(*self, with_uniforms, pso.id, bindings, j as nat),
            decreases textures.len() - j,
        {
            assert(buf.name(textures@[j as int].0) is Some);
            let name = slice_to_vec(buf.as_bytes(textures[j].0).unwrap());
            assert(bindings[j as int] == (name@, textures@[j as int].1));
            match self.textures.get(textures[j].1.0) {
                Some(to) => {
                    emit(
                        steps,
                        Step::Uniform {
                            program: pso.id,
                            name,
                            variable: UniformVariable::I32(j as i32),
                            missing: Missing::FailTexture,
                        },
                    );
                    emit_call(steps, BackendCall::BindTexture { slot: j as u32, id: to.id });
                    assert(step_models(steps@) =~= plan_textures(
                        *self,
                        with_uniforms,
                        pso.id,
                        bindings,
                        j as nat,
                    ).steps + texture_steps(pso.id, name@, j as nat, to.id));
                },
                None => {
                    proof {
                        assert(plan_textures(
                            *self,
                            with_uniforms,
                            pso.id,
                            bindings,
                            (j + 1) as nat,
                        ) == plan_textures(*self, with_uniforms, pso.id, bindings, j as nat).failed(
                            ErrorModel::InvalidTexture(textures@[j as int].1, name@),
                        ));
                        lemma_textures_stay_failed(
                            *self,
                            with_uniforms,
                            pso.id,
                            bindings,
                            (j + 1) as nat,
                            bindings.len(),
                        );
                    }
                    return Err(Error::InvalidTexture(textures[j].1, name));
                },
            }
            j += 1;
        }
        let ghost textured = plan_textures(*self, with_uniforms, pso.id, bindings, bindings.len());
        let vbo = match self.vertex_buffers.get(dc.vb.0) {
            Some(vbo) => vbo,
            None => {
                return Err(Error::InvalidHandle);
            },
        };
        emit_call(steps, BackendCall::BindBuffer { target: gl_array_buffer(), id: vbo.id });
        emit_call(
            steps,
            BackendCall::BindAttributeLayout {
                attributes: pso.setup.layout,
                layout: vbo.setup.layout,
            },
        );
        let ghost with_buffer = textured.with(
            seq![
                StepModel::Call(BackendCall::BindBuffer { target: ARRAY_BUFFER, id: vbo.id }),
                StepModel::Call(
                    BackendCall::BindAttributeLayout {
                        attributes: pso.setup.layout,
                        layout: vbo.setup.layout,
                    },
                ),
            ],
        );
        assert(step_models(steps@) =~= with_buffer.steps);
        let draw = match dc.ib {
            Some(ib) => match self.index_buffers.get(ib.0) {
                Some(ibo) => BackendCall::DrawElements {
                    primitive: dc.primitive,
                    len: dc.len,
                    format: ibo.setup.format,
                    from: dc.from,
                },
                None => {
                    return Err(Error::InvalidHandle);
                },
            },
            None => BackendCall::DrawArrays { primitive: dc.primitive, from: dc.from, len: dc.len },
        };
        emit_call(steps, draw);
        emit_call(steps, BackendCall::Check);
        assert(step_models(steps@) =~= with_buffer.steps + seq![
            StepModel::Call(draw),
            StepModel::Call(BackendCall::Check),
        ]);
        Ok(())
    }

    /// Adds to `steps` what flushes `view`, and keeps `active` up to date.
    /// The first thing that is wrong ends the work with its error; the steps
    /// added up to there stay.
    #[verifier::loop_isolation(false)]
    pub fn plan_view_state(
        &self,
        buf: &TaskBuffer,
        view: &ViewStateObject,
        dimensions: (u32, u32),
        active: &mut Option<PipelineStateHandle>,
        steps: &mut Vec<Step>,
    ) -> (r: Result<(), Error>)
        ensures
            (Plan {
                steps: step_models(final(steps)@),
                failure: failure_of(r),
                active: *final(active),
            }) == plan_view(*self, *buf, plan_of(old(steps)@, *old(active)), *view, dimensions),
    {
        let bind = match view.setup.framebuffer {
            Some(handle) => match self.framebuffers.get(handle.0) {
                Some(fbo) => BackendCall::BindFramebuffer { id: fbo.id, check: true },
                None => {
                    return Err(Error::InvalidHandle);
                },
            },
            None => BackendCall::BindFramebuffer { id: 0, check: false },
        };
        let size = match view.setup.viewport.1 {
            Some(size) => (size.0 as u32, size.1 as u32),
            None => dimensions,
        };
        let clear = BackendCall::Clear {
            color: view.setup.clear_color,
            depth: view.setup.clear_depth,
            stencil: view.setup.clear_stencil,
        };
        let viewport = BackendCall::SetViewport { position: view.setup.viewport.0, size };
        emit_call(steps, bind);
        emit_call(steps, clear);
        emit_call(steps, viewport);
        let ghost opened = plan_of(old(steps)@, *old(active)).with(
            seq![StepModel::Call(bind), StepModel::Call(clear), StepModel::Call(viewport)],
        );
        assert(step_models(steps@) =~= opened.steps);
        let mut draws = slice_to_vec(view.drawcalls.as_slice());
        if !view.setup.sequence {
            sort_by_rank(&mut draws);
        }
        let mut i: usize = 0;
        while i < draws.len()
            invariant
                i <= draws@.len(),
                draws@ == realized(*view),
                plan_of(steps@, *active) == plan_draws(*self, *buf, opened, draws@, i as nat),
            decreases draws.len() - i,
        {
            let ghost before = plan_of(steps@, *active);
            let outcome = self.plan_draw_call(buf, &draws[i], active, steps);
            assert(plan_draws(*self, *buf, opened, draws@, (i + 1) as nat) == plan_draw(
                *self,
                *buf,
                before,
                draws@[i as int],
            ));
            match outcome {
                Ok(_) => {},
                Err(error) => {
                    proof {
                        lemma_draws_stay_failed(
                            *self,
                            *buf,
                            opened,
                            draws@,
                            (i + 1) as nat,
                            draws@.len(),
                        );
                    }
                    return Err(error);
                },
            }
            i += 1;
        }
        Ok(())
    }

    /// Forgets which pipeline is bound, so that the next draw call binds
    /// its pipeline in full. Nothing else changes.
    pub fn forget_pipeline(&mut self)
        ensures
            *final(self) == (Device { active_pipeline: None, ..*old(self) }),
    {
        self.active_pipeline = None;
    }

    /// The live views in the order in which they are flushed.
    pub fn flush_order(&self) -> (keys: Vec<ViewKey>)
        ensures
            keys@ == flush_order(self.views@),
    {
        let mut ordered: Vec<ViewKey> = Vec::new();
        let mut plain: Vec<ViewKey> = Vec::new();
        let n = self.views.len();
        let mut i: usize = 0;
        while i < n
            invariant
                i <= n,
                n == self.views@.len(),
                ordered@ == view_keys(self.views@, i as nat, true),
                plain@ == view_keys(self.views@, i as nat, false),
            decreases n - i,
        {
            match self.views.at(i) {
                Some(view) => {
                    let key = ViewKey { order: view.setup.order, index: i };
                    if view.setup.order == 0 {
                        plain.push(key);
                    } else {
                        ordered.push(key);
                    }
                },
                None => {},
            }
            i += 1;
        }
        sort_by_rank(&mut ordered);
        ordered.append(&mut plain);
        ordered
    }

    /// Plans the flush of a frame: what the backend has to do to realize the
    /// draw calls that wait in the views, which stay where they are. `buf`
    /// holds what the draw calls bind by name, `dimensions` is the size of
    /// the frame.
    ///
    /// The script holds the steps in order. Where a handle reaches nothing,
    /// or a pointer reaches outside `buf`, the script ends there and its
    /// outcome is that error. The pipeline that is bound once the steps are
    /// taken is remembered as the active one; a caller that could not take
    /// them all has it forgotten by `forget_pipeline`.
    pub fn flush(&mut self, buf: &TaskBuffer, dimensions: (u32, u32)) -> (script: Script)
        ensures
            script@.steps == flush_plan(*old(self), *buf, dimensions).steps,
            script@.failure == flush_plan(*old(self), *buf, dimensions).failure,
            final(self).active_pipeline == flush_plan(*old(self), *buf, dimensions).active,
            *final(self) == (Device {
                active_pipeline: final(self).active_pipeline,
                ..*old(self)
            }),
    {
        let keys = self.flush_order();
        let mut steps: Vec<Step> = Vec::new();
        let mut active = self.active_pipeline;
        let mut outcome: Result<(), Error> = Ok(());
        let ghost start = Plan {
            steps: Seq::empty(),
            failure: None,
            active: self.active_pipeline,
        };
        assert(step_models(steps@) =~= start.steps);
        let mut i: usize = 0;
        while i < keys.len()
            invariant
                i <= keys@.len(),
                *self == *old(self),
                keys@ == flush_order(self.views@),
                start == (Plan {
                    steps: Seq::empty(),
                    failure: None,
                    active: self.active_pipeline,
                }),
                (Plan { steps: step_models(steps@), failure: failure_of(outcome), active })
                    == plan_views(*self, *buf, start, keys@, dimensions, i as nat),
                outcome is Err ==> i == keys@.len(),
            decreases keys.len() - i,
        {
            match self.views.at(keys[i].index) {
                Some(view) => {
                    match self.plan_view_state(buf, view, dimensions, &mut active, &mut steps) {
                        Ok(_) => {
                            i += 1;
                        },
                        Err(error) => {
                            proof {
                                lemma_views_stay_failed(
                                    *self,
                                    *buf,
                                    start,
                                    keys@,
                                    dimensions,
                                    (i + 1) as nat,
                                    keys@.len(),
                                );
                            }
                            outcome = Err(error);
                            i = keys.len();
                        },
                    }
                },
                None => {
                    i += 1;
                },
            }
        }
        self.active_pipeline = active;
        Script { steps, outcome }
    }
}

/// Takes the backend's answer to the building of a program. If the backend
/// failed, that is the error. Else the script returned looks up every
/// attribute that `setup` names in the program; it fails at the first that
/// the program does not have. Once it has run without failure the pipeline
/// is stored by `finish_create_pipeline`.
pub fn link_pipeline(setup: &PipelineStateSetup, created: Result<u32, BackendError>) -> (r: Result<
    Script,
    Error,
>)
    ensures
        match created {
            Err(error) => r matches Err(e) && e@ == ErrorModel::Backend(error),
            Ok(program) => r matches Ok(script) && script@ == (ScriptModel {
                steps: setup.layout.names().map_values(
                    |attribute| StepModel::Attribute { program, attribute },
                ),
                failure: None,
            }),
        },
{
    let program = match created {
        Ok(program) => program,
        Err(error) => {
            return Err(Error::Backend(error));
        },
    };
    let ghost wanted = setup.layout.names().map_values(
        |attribute| StepModel::Attribute { program, attribute },
    );
    let mut steps: Vec<Step> = Vec::new();
    let n = setup.layout.count();
    let mut i: usize = 0;
    assert(step_models(steps@) =~= wanted.take(0));
    while i < n
        invariant
            i <= n,
            n == setup.layout.spec_count(),
            n <= 12,
            wanted == setup.layout.names().map_values(
                |attribute| StepModel::Attribute { program, attribute },
            ),
            step_models(steps@) == wanted.take(i as int),
        decreases n - i,
    {
        emit(&mut steps, Step::Attribute { program, attribute: setup.layout.elements[i].0 });
        assert(wanted.take(i + 1) =~= wanted.take(i as int).push(wanted[i as int]));
        i += 1;
    }
    assert(wanted.take(i as int) =~= wanted);
    Ok(Script { steps, outcome: Ok(()) })
}

} // verus!
