use crate::backend::BackendCall;
use crate::device::{Device, DrawCall, ViewStateObject};
use crate::flush::{
    binding_steps, flush_order, named_textures, named_uniforms, plan_binding, plan_draw,
    plan_draws, plan_issue, plan_textures, realized, texture_steps, uniform_steps, view_keys, Plan,
    ViewKey,
};
use crate::frame::TaskBuffer;
use crate::handle::{PipelineStateHandle, TextureHandle};
use crate::script::StepModel;
use crate::sort::{
    is_descending, lemma_insert_position, lemma_sorted_is_descending, lemma_sorted_is_permutation,
    lemma_sorted_is_stable, of_rank, sorted_by_rank,
};
use crate::table::Entry;
use vstd::prelude::*;

verus! {

/// Whether `key` names a live view of `views`, with the order of that view.
pub open spec fn names_live_view(views: Seq<Option<Entry<ViewStateObject>>>, key: ViewKey) -> bool {
    &&& key.index < views.len()
    &&& views[key.index as int] is Some
    &&& views[key.index as int]->0.value.setup.order == key.order
}

/// Whether the view of `first` is flushed before that of `second`: a view
/// of non-zero order before one of order zero; of two of non-zero order the
/// higher, and of two of the same order the one in the lower slot.
pub open spec fn flushed_before(first: ViewKey, second: ViewKey) -> bool {
    if first.order != 0 && second.order != 0 {
        first.order > second.order || (first.order == second.order && first.index < second.index)
    } else if first.order == 0 && second.order == 0 {
        first.index < second.index
    } else {
        first.order != 0
    }
}

proof fn lemma_view_keys(views: Seq<Option<Entry<ViewStateObject>>>, n: nat, explicit: bool)
    requires
        n <= views.len() <= usize::MAX,
    ensures
        forall|k: int|
            0 <= k < view_keys(views, n, explicit).len() ==> {
                let key = #[trigger] view_keys(views, n, explicit)[k];
                names_live_view(views, key) && key.index < n && (key.order != 0) == explicit
            },
        forall|j: int, k: int|
            0 <= j < k < view_keys(views, n, explicit).len() ==> view_keys(
                views,
                n,
                explicit,
            )[j].index < view_keys(views, n, explicit)[k].index,
        forall|i: int|
            0 <= i < n && views[i] is Some && (views[i]->0.value.setup.order != 0) == explicit
                ==> view_keys(views, n, explicit).contains(
                ViewKey { order: views[i]->0.value.setup.order, index: i as usize },
            ),
    decreases n,
{
    if n > 0 {
        let before = view_keys(views, (n - 1) as nat, explicit);
        let keys = view_keys(views, n, explicit);
        lemma_view_keys(views, (n - 1) as nat, explicit);
        assert forall|i: int|
            0 <= i < n && views[i] is Some && (views[i]->0.value.setup.order != 0)
                == explicit implies keys.contains(
            ViewKey { order: views[i]->0.value.setup.order, index: i as usize },
        ) by {
            let key = ViewKey { order: views[i]->0.value.setup.order, index: i as usize };
            if i < n - 1 {
                assert(before.contains(key));
                let k = choose|k: int| 0 <= k < before.len() && before[k] == key;
                assert(keys[k] == key);
            } else {
                assert(keys[keys.len() - 1] == key);
            }
        }
    }
}

proof fn lemma_explicit_views(views: Seq<Option<Entry<ViewStateObject>>>, n: nat)
    requires
        n <= views.len() <= usize::MAX,
    ensures
        sorted_by_rank(view_keys(views, n, true)).len() == view_keys(views, n, true).len(),
        forall|k: int|
            0 <= k < sorted_by_rank(view_keys(views, n, true)).len() ==> {
                let key = #[trigger] sorted_by_rank(view_keys(views, n, true))[k];
                names_live_view(views, key) && key.index < n && key.order != 0
            },
        forall|j: int, k: int|
            0 <= j < k < sorted_by_rank(view_keys(views, n, true)).len() ==> flushed_before(
                sorted_by_rank(view_keys(views, n, true))[j],
                sorted_by_rank(view_keys(views, n, true))[k],
            ),
        forall|key: ViewKey|
            view_keys(views, n, true).contains(key) ==> sorted_by_rank(
                view_keys(views, n, true),
            ).contains(key),
    decreases n,
{
    let keys = view_keys(views, n, true);
    let sorted = sorted_by_rank(keys);
    if n > 0 {
        let before = view_keys(views, (n - 1) as nat, true);
        let sorted_before = sorted_by_rank(before);
        lemma_explicit_views(views, (n - 1) as nat);
        lemma_view_keys(views, n, true);
        if keys.len() > before.len() {
            let key = keys.last();
            assert(keys.drop_last() =~= before);
            lemma_sorted_is_descending(before);
            let pos = lemma_insert_position(sorted_before, key);
            assert(sorted == sorted_before.insert(pos, key));
            assert(key.index == n - 1);
            assert forall|k: int| 0 <= k < sorted.len() implies {
                let found = #[trigger] sorted[k];
                names_live_view(views, found) && found.index < n && found.order != 0
            } by {
                if k < pos {
                    assert(sorted[k] == sorted_before[k]);
                } else if k > pos {
                    assert(sorted[k] == sorted_before[k - 1]);
                }
            }
            assert forall|j: int, k: int| 0 <= j < k < sorted.len() implies flushed_before(
                sorted[j],
                sorted[k],
            ) by {
                if j < pos {
                    assert(sorted[j] == sorted_before[j]);
                } else if j > pos {
                    assert(sorted[j] == sorted_before[j - 1]);
                }
                if k < pos {
                    assert(sorted[k] == sorted_before[k]);
                } else if k > pos {
                    assert(sorted[k] == sorted_before[k - 1]);
                }
            }
            assert forall|found: ViewKey| keys.contains(found) implies sorted.contains(found) by {
                let i = choose|i: int| 0 <= i < keys.len() && keys[i] == found;
                if i < before.len() {
                    assert(before[i] == found);
                    assert(before.contains(found));
                    assert(sorted_before.contains(found));
                    let k = choose|k: int| 0 <= k < sorted_before.len() && sorted_before[k] == found;
                    if k < pos {
                        assert(sorted[k] == found);
                    } else {
                        assert(sorted[k + 1] == found);
                    }
                } else {
                    assert(sorted[pos] == found);
                }
            }
        }
    }
}

/// The order in which the views of a table are flushed names every live
/// view, and nothing else; and of any two views it names, the one named
/// first is flushed before the other as `flushed_before` says.
pub proof fn lemma_flush_order(views: Seq<Option<Entry<ViewStateObject>>>)
    requires
        views.len() <= usize::MAX,
    ensures
        forall|k: int|
            0 <= k < flush_order(views).len() ==> names_live_view(
                views,
                #[trigger] flush_order(views)[k],
            ),
        forall|i: int|
            0 <= i < views.len() && views[i] is Some ==> flush_order(views).contains(
                ViewKey { order: views[i]->0.value.setup.order, index: i as usize },
            ),
        forall|j: int, k: int|
            0 <= j < k < flush_order(views).len() ==> flushed_before(
                flush_order(views)[j],
                flush_order(views)[k],
            ),
{
    let n = views.len();
    let explicit = sorted_by_rank(view_keys(views, n, true));
    let plain = view_keys(views, n, false);
    let order = flush_order(views);
    lemma_explicit_views(views, n);
    lemma_view_keys(views, n, true);
    lemma_view_keys(views, n, false);
    assert forall|k: int| 0 <= k < order.len() implies names_live_view(views, #[trigger] order[k])
        && (if k < explicit.len() {
        order[k].order != 0
    } else {
        order[k].order == 0
    }) by {
        if k < explicit.len() {
            assert(order[k] == explicit[k]);
        } else {
            assert(order[k] == plain[k - explicit.len()]);
        }
    }
    assert forall|i: int| 0 <= i < views.len() && views[i] is Some implies order.contains(
        ViewKey { order: views[i]->0.value.setup.order, index: i as usize },
    ) by {
        let key = ViewKey { order: views[i]->0.value.setup.order, index: i as usize };
        if key.order != 0 {
            assert(view_keys(views, n, true).contains(key));
            assert(explicit.contains(key));
            let k = choose|k: int| 0 <= k < explicit.len() && explicit[k] == key;
            assert(order[k] == key);
        } else {
            assert(plain.contains(key));
            let k = choose|k: int| 0 <= k < plain.len() && plain[k] == key;
            assert(order[explicit.len() + k] == key);
        }
    }
    assert forall|j: int, k: int| 0 <= j < k < order.len() implies flushed_before(
        order[j],
        order[k],
    ) by {
        if k < explicit.len() {
            assert(order[j] == explicit[j] && order[k] == explicit[k]);
        } else if j < explicit.len() {
            assert(order[j] == explicit[j]);
            assert(order[k] == plain[k - explicit.len()]);
        } else {
            assert(order[j] == plain[j - explicit.len()]);
            assert(order[k] == plain[k - explicit.len()]);
        }
    }
}

/// The draw calls of a sequence are realized as they were submitted. Those
/// of any other view are realized by descending priority: the same draw
/// calls, none before one of higher priority, and those of one priority in
/// the order in which they were submitted.
pub proof fn lemma_realized_order(view: ViewStateObject, priority: u64)
    ensures
        view.setup.sequence ==> realized(view) == view.drawcalls@,
        !view.setup.sequence ==> is_descending(realized(view)),
        realized(view).len() == view.drawcalls@.len(),
        realized(view).to_multiset() == view.drawcalls@.to_multiset(),
        of_rank(realized(view), priority) == of_rank(view.drawcalls@, priority),
{
    if !view.setup.sequence {
        lemma_sorted_is_descending(view.drawcalls@);
        lemma_sorted_is_permutation(view.drawcalls@);
        lemma_sorted_is_stable(view.drawcalls@, priority);
    }
}

/// Whether a step binds a program.
pub open spec fn binds_program(step: StepModel) -> bool {
    step matches StepModel::Call(BackendCall::BindProgram { .. })
}

/// How many of `steps` bind a program.
pub open spec fn program_binds(steps: Seq<StepModel>) -> nat
    decreases steps.len(),
{
    if steps.len() == 0 {
        0
    } else {
        program_binds(steps.drop_last()) + if binds_program(steps.last()) {
            1nat
        } else {
            0nat
        }
    }
}

proof fn lemma_binds_add(a: Seq<StepModel>, b: Seq<StepModel>)
    ensures
        program_binds(a + b) == program_binds(a) + program_binds(b),
    decreases b.len(),
{
    if b.len() == 0 {
        assert(a + b =~= a);
    } else {
        lemma_binds_add(a, b.drop_last());
        assert((a + b).drop_last() =~= a + b.drop_last());
    }
}

proof fn lemma_binds_none(steps: Seq<StepModel>)
    requires
        forall|i: int| 0 <= i < steps.len() ==> !binds_program(#[trigger] steps[i]),
    ensures
        program_binds(steps) == 0,
    decreases steps.len(),
{
    if steps.len() > 0 {
        let front = steps.drop_last();
        assert forall|i: int| 0 <= i < front.len() implies !binds_program(#[trigger] front[i]) by {
            assert(front[i] == steps[i]);
        }
        lemma_binds_none(front);
    }
}

proof fn lemma_binds_of_textures(
    device: Device,
    plan: Plan,
    program: u32,
    textures: Seq<(Seq<u8>, TextureHandle)>,
    n: nat,
)
    ensures
        program_binds(plan_textures(device, plan, program, textures, n).steps) == program_binds(
            plan.steps,
        ),
        plan_textures(device, plan, program, textures, n).active == plan.active,
    decreases n,
{
    if n > 0 && n <= textures.len() {
        let before = plan_textures(device, plan, program, textures, (n - 1) as nat);
        lemma_binds_of_textures(device, plan, program, textures, (n - 1) as nat);
        let (name, texture) = textures[n - 1];
        if before.failure is None && device.textures.lookup(texture.0) is Some {
            let added = texture_steps(
                program,
                name,
                (n - 1) as nat,
                device.textures.lookup(texture.0)->0.id,
            );
            lemma_binds_none(added);
            lemma_binds_add(before.steps, added);
        }
    }
}

/// Whether the draw call `dc`, coming behind `plan`, has its pipeline bound
/// in full: what it binds by name can be read, its pipeline exists, and
/// another pipeline, or none, is bound.
pub open spec fn rebinds(device: Device, buf: TaskBuffer, plan: Plan, dc: DrawCall) -> bool {
    &&& plan.failure is None
    &&& named_uniforms(buf, dc.uniforms) is Some
    &&& named_textures(buf, dc.textures) is Some
    &&& device.pipelines.lookup(dc.pipeline.0) is Some
    &&& plan.active != Some(dc.pipeline)
}

/// A draw call adds one binding of a program where its pipeline is bound
/// in full, and none elsewhere. Where it got as far as its pipeline, that
/// pipeline is the one bound behind it.
pub proof fn lemma_binds_of_draw(device: Device, buf: TaskBuffer, plan: Plan, dc: DrawCall)
    ensures
        program_binds(plan_draw(device, buf, plan, dc).steps) == program_binds(plan.steps) + if rebinds(
            device,
            buf,
            plan,
            dc,
        ) {
            1nat
        } else {
            0nat
        },
        plan_draw(device, buf, plan, dc).active == Some(dc.pipeline) || plan_draw(
            device,
            buf,
            plan,
            dc,
        ).active == plan.active,
        plan_draw(device, buf, plan, dc).failure is None || rebinds(device, buf, plan, dc)
            ==> plan_draw(device, buf, plan, dc).active == Some(dc.pipeline),
{
    if plan.failure is None && named_uniforms(buf, dc.uniforms) is Some && named_textures(
        buf,
        dc.textures,
    ) is Some && device.pipelines.lookup(dc.pipeline.0) is Some {
        let pso = device.pipelines.lookup(dc.pipeline.0)->0;
        let first = plan_binding(plan, dc.pipeline, pso);
        if plan.active != Some(dc.pipeline) {
            let binding = binding_steps(pso);
            let head = binding.take(1);
            let tail = binding.skip(1);
            assert(binding =~= head + tail);
            assert(program_binds(head) == 1) by {
                assert(head.drop_last() =~= Seq::<StepModel>::empty());
                assert(program_binds(head.drop_last()) == 0);
                assert(binds_program(head.last()));
            }
            lemma_binds_none(tail);
            lemma_binds_add(head, tail);
            lemma_binds_add(plan.steps, binding);
        }
        let uniforms = uniform_steps(pso.id, named_uniforms(buf, dc.uniforms)->0);
        lemma_binds_none(uniforms);
        lemma_binds_add(first.steps, uniforms);
        let bound = first.with(uniforms);
        let textures = named_textures(buf, dc.textures)->0;
        lemma_binds_of_textures(device, bound, pso.id, textures, textures.len());
        let textured = plan_textures(device, bound, pso.id, textures, textures.len());
        if textured.failure is None {
            let issued = plan_issue(device, textured, pso, dc);
            let added = issued.steps.skip(textured.steps.len() as int);
            assert(issued.steps =~= textured.steps + added);
            lemma_binds_none(added);
            lemma_binds_add(textured.steps, added);
        }
    }
}

/// Draw calls that follow each other and share a pipeline have it bound in
/// full once at most: by the first of them, if it is not bound already.
pub proof fn lemma_shared_pipeline_bound_once(
    device: Device,
    buf: TaskBuffer,
    plan: Plan,
    draws: Seq<DrawCall>,
    n: nat,
    pipeline: PipelineStateHandle,
)
    requires
        n <= draws.len(),
        forall|i: int| 0 <= i < n ==> (#[trigger] draws[i]).pipeline == pipeline,
    ensures
        program_binds(plan_draws(device, buf, plan, draws, n).steps) <= program_binds(plan.steps)
            + 1,
        plan.active == Some(pipeline) ==> program_binds(
            plan_draws(device, buf, plan, draws, n).steps,
        ) == program_binds(plan.steps),
        n > 0 && plan.active != Some(pipeline) && plan_draws(device, buf, plan, draws, n).failure
            is None ==> program_binds(plan_draws(device, buf, plan, draws, n).steps)
            == program_binds(plan.steps) + 1,
        plan_draws(device, buf, plan, draws, n).active == Some(pipeline) || (plan_draws(
            device,
            buf,
            plan,
            draws,
            n,
        ).active == plan.active && program_binds(plan_draws(device, buf, plan, draws, n).steps)
            == program_binds(plan.steps)),
        plan_draws(device, buf, plan, draws, n).failure is None ==> plan.failure is None,
    decreases n,
{
    if n > 0 {
        let before = plan_draws(device, buf, plan, draws, (n - 1) as nat);
        lemma_shared_pipeline_bound_once(device, buf, plan, draws, (n - 1) as nat, pipeline);
        lemma_binds_of_draw(device, buf, before, draws[n - 1]);
    }
}

} // verus!
