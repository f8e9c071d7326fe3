//! Rendering a collection of objects: the forward pass, and the deferred
//! pipeline's geometry pass followed by its lighting pass.

use vstd::prelude::*;
use crate::base::Viewport;
use crate::camera::Camera;
use crate::context::{
    deferred_outcome, forward_outcome, lighting_outcome, lit, ContextView, RenderContext,
    RenderError, Surface,
};
use crate::light::Lights;
use crate::material::{subset, GeometryPassMaterial};
use crate::object::{Object, Shadable};

verus! {

/// Why rendering `o` fails when the context has the programs `programs`, if
/// it does.
pub open spec fn object_error<O: Object>(o: O, programs: Seq<u32>) -> Option<RenderError> {
    if !subset(o.material_desc().required, o.supplied()) {
        Some(RenderError::AttributeMismatch)
    } else if !programs.contains(o.material_desc().program) {
        Some(RenderError::ResourceBindFailure)
    } else {
        None
    }
}

/// The failing objects, by index in order, each with its error.
pub open spec fn failures_of<O: Object>(objs: Seq<O>, programs: Seq<u32>) -> Seq<(usize, RenderError)>
    decreases objs.len(),
{
    if objs.len() == 0 {
        Seq::empty()
    } else {
        let rest = failures_of(objs.drop_last(), programs);
        match object_error(objs.last(), programs) {
            Some(e) => rest.push(((objs.len() - 1) as usize, e)),
            None => rest,
        }
    }
}

/// The surfaces the objects that render produce, in order.
pub open spec fn surfaces_of<O: Object>(objs: Seq<O>, viewport: Viewport, programs: Seq<u32>) -> Seq<
    Surface,
>
    decreases objs.len(),
{
    if objs.len() == 0 {
        Seq::empty()
    } else {
        let rest = surfaces_of(objs.drop_last(), viewport, programs);
        let o = objs.last();
        if object_error(o, programs) is None {
            rest.push(
                Surface {
                    program: o.material_desc().program,
                    vertices: o.vertex_count(),
                    viewport,
                },
            )
        } else {
            rest
        }
    }
}

/// The context after forward-rendering each object in turn.
pub open spec fn forward_fold<O: Object>(
    objs: Seq<O>,
    viewport: Viewport,
    lights: u128,
    c: ContextView,
) -> ContextView
    decreases objs.len(),
{
    if objs.len() == 0 {
        c
    } else {
        let o = objs.last();
        forward_outcome(
            o.supplied(),
            o.vertex_count(),
            o.material_desc(),
            viewport,
            lights,
            forward_fold(objs.drop_last(), viewport, lights, c),
        ).1
    }
}

/// The context after rendering each object in turn into the G-buffer.
pub open spec fn deferred_fold<O: Object>(objs: Seq<O>, viewport: Viewport, c: ContextView) -> ContextView
    decreases objs.len(),
{
    if objs.len() == 0 {
        c
    } else {
        let o = objs.last();
        deferred_outcome(
            o.supplied(),
            o.vertex_count(),
            o.material_desc(),
            viewport,
            deferred_fold(objs.drop_last(), viewport, c),
        ).1
    }
}

/// The context as a geometry pass leaves it before its first object.
pub open spec fn begun(c: ContextView) -> ContextView {
    ContextView { gbuffer: Seq::empty(), geometry_pass_done: true, ..c }
}

/// Forward-renders every object with its own material, in order. An object
/// that fails does not stop the others; the failures come back by index.
pub fn forward_pass<O: Object>(
    objects: &Vec<O>,
    camera: &Camera,
    lights: &Lights,
    ctx: &mut RenderContext,
) -> (failures: Vec<(usize, RenderError)>)
    ensures
        final(ctx)@ == forward_fold(objects@, camera.viewport, lights.count_spec(), old(ctx)@),
        failures@ == failures_of(objects@, old(ctx)@.programs),
{
    let mut failures: Vec<(usize, RenderError)> = Vec::new();
    let mut i: usize = 0;
    while i < objects.len()
        invariant
            i <= objects@.len(),
            ctx@ == forward_fold(objects@.subrange(0, i as int), camera.viewport, lights.count_spec(), old(ctx)@),
            ctx@.programs == old(ctx)@.programs,
            failures@ == failures_of(objects@.subrange(0, i as int), old(ctx)@.programs),
        decreases objects@.len() - i,
    {
        let o = &objects[i];
        let r = o.render(camera, lights, ctx);
        proof {
            assert(objects@.subrange(0, i + 1).drop_last() =~= objects@.subrange(0, i as int));
            assert(objects@.subrange(0, i + 1).last() == objects@[i as int]);
        }
        match r {
            Err(e) => failures.push((i, e)),
            Ok(()) => {},
        }
        i = i + 1;
    }
    proof {
        assert(objects@.subrange(0, i as int) =~= objects@);
    }
    failures
}

/// The geometry pass: clears the G-buffer, then renders every object into
/// it with a material that writes the object's own material. An object that
/// fails does not stop the others; the failures come back by index.
pub fn geometry_pass<O: Object>(
    objects: &Vec<O>,
    camera: &Camera,
    ctx: &mut RenderContext,
) -> (failures: Vec<(usize, RenderError)>)
    ensures
        final(ctx)@ == deferred_fold(objects@, camera.viewport, begun(old(ctx)@)),
        failures@ == failures_of(objects@, old(ctx)@.programs),
{
    ctx.begin_geometry_pass();
    let ghost start = ctx@;
    let mut failures: Vec<(usize, RenderError)> = Vec::new();
    let mut i: usize = 0;
    while i < objects.len()
        invariant
            i <= objects@.len(),
            start == begun(old(ctx)@),
            ctx@ == deferred_fold(objects@.subrange(0, i as int), camera.viewport, start),
            ctx@.programs == old(ctx)@.programs,
            failures@ == failures_of(objects@.subrange(0, i as int), old(ctx)@.programs),
        decreases objects@.len() - i,
    {
        let o = &objects[i];
        let material = GeometryPassMaterial::for_material(o.material());
        let r = o.render_deferred(&material, camera, camera.viewport, ctx);
        proof {
            assert(objects@.subrange(0, i + 1).drop_last() =~= objects@.subrange(0, i as int));
            assert(objects@.subrange(0, i + 1).last() == objects@[i as int]);
        }
        match r {
            Err(e) => failures.push((i, e)),
            Ok(()) => {},
        }
        i = i + 1;
    }
    proof {
        assert(objects@.subrange(0, i as int) =~= objects@);
    }
    failures
}

/// The lighting pass: one full-screen draw that lights the G-buffer.
pub fn lighting_pass(program: u32, camera: &Camera, lights: &Lights, ctx: &mut RenderContext) -> (r:
    Result<(), RenderError>)
    ensures
        (r, final(ctx)@) == lighting_outcome(program, camera.viewport, lights.count_spec(), old(ctx)@),
{
    let l = lights.count();
    ctx.resolve_lighting(program, camera.viewport, l)
}

/// Deferred rendering of a whole scene: the geometry pass over every object,
/// then the lighting pass. The objects that failed come back by index; a
/// failure of the lighting pass fails the frame.
pub fn render_deferred<O: Object>(
    objects: &Vec<O>,
    lighting_program: u32,
    camera: &Camera,
    lights: &Lights,
    ctx: &mut RenderContext,
) -> (r: Result<Vec<(usize, RenderError)>, RenderError>)
    ensures
        ({
            let g = deferred_fold(objects@, camera.viewport, begun(old(ctx)@));
            let (lr, after) = lighting_outcome(lighting_program, camera.viewport, lights.count_spec(), g);
            &&& final(ctx)@ == after
            &&& match r {
                Ok(f) => lr is Ok && f@ == failures_of(objects@, old(ctx)@.programs),
                Err(e) => lr == Err::<(), RenderError>(e),
            }
        }),
{
    let failures = geometry_pass(objects, camera, ctx);
    match lighting_pass(lighting_program, camera, lights, ctx) {
        Ok(()) => Ok(failures),
        Err(e) => Err(e),
    }
}

/// Forward rendering leaves the programs as they were and adds to the
/// image each surface that renders, lit.
pub proof fn lemma_forward_fold_image<O: Object>(
    objs: Seq<O>,
    viewport: Viewport,
    lights: u128,
    c: ContextView,
)
    ensures
        forward_fold(objs, viewport, lights, c).programs == c.programs,
        forward_fold(objs, viewport, lights, c).image == c.image + lit(
            surfaces_of(objs, viewport, c.programs),
            lights,
        ),
    decreases objs.len(),
{
    if objs.len() == 0 {
        assert(c.image + lit(Seq::<Surface>::empty(), lights) =~= c.image);
    } else {
        let init = objs.drop_last();
        lemma_forward_fold_image(init, viewport, lights, c);
        let rest = surfaces_of(init, viewport, c.programs);
        let o = objs.last();
        if object_error(o, c.programs) is None {
            let s = Surface {
                program: o.material_desc().program,
                vertices: o.vertex_count(),
                viewport,
            };
            assert(lit(rest.push(s), lights) =~= lit(rest, lights).push(
                crate::context::Shade { surface: s, lights },
            ));
            assert(c.image + lit(rest.push(s), lights) =~= (c.image + lit(rest, lights)).push(
                crate::context::Shade { surface: s, lights },
            ));
        }
    }
}

/// The geometry pass keeps the programs, the image and the pass flag, and
/// adds to the G-buffer each surface that renders.
pub proof fn lemma_deferred_fold_gbuffer<O: Object>(objs: Seq<O>, viewport: Viewport, c: ContextView)
    ensures
        deferred_fold(objs, viewport, c).programs == c.programs,
        deferred_fold(objs, viewport, c).image == c.image,
        deferred_fold(objs, viewport, c).geometry_pass_done == c.geometry_pass_done,
        deferred_fold(objs, viewport, c).gbuffer == c.gbuffer + surfaces_of(
            objs,
            viewport,
            c.programs,
        ),
    decreases objs.len(),
{
    if objs.len() == 0 {
        assert(c.gbuffer + Seq::<Surface>::empty() =~= c.gbuffer);
    } else {
        let init = objs.drop_last();
        lemma_deferred_fold_gbuffer(init, viewport, c);
        let rest = surfaces_of(init, viewport, c.programs);
        let o = objs.last();
        if object_error(o, c.programs) is None {
            let s = Surface {
                program: o.material_desc().program,
                vertices: o.vertex_count(),
                viewport,
            };
            assert(c.gbuffer + rest.push(s) =~= (c.gbuffer + rest).push(s));
        }
    }
}

/// The geometry pass followed by the lighting pass gives the same image as
/// forward-rendering the same objects in the same order with the same
/// lights, whenever the lighting program is available.
pub proof fn lemma_deferred_matches_forward<O: Object>(
    objs: Seq<O>,
    lighting_program: u32,
    viewport: Viewport,
    lights: u128,
    c: ContextView,
)
    requires
        c.programs.contains(lighting_program),
    ensures
        ({
            let (r, after) = lighting_outcome(
                lighting_program,
                viewport,
                lights,
                deferred_fold(objs, viewport, begun(c)),
            );
            r is Ok && after.image == forward_fold(objs, viewport, lights, c).image
        }),
{
    lemma_forward_fold_image(objs, viewport, lights, c);
    lemma_deferred_fold_gbuffer(objs, viewport, begun(c));
    assert(Seq::<Surface>::empty() + surfaces_of(objs, viewport, c.programs) =~= surfaces_of(
        objs,
        viewport,
        c.programs,
    ));
}

/// An object is reported as failed, with a given error, exactly when that
/// error is its own; every other object renders, so the surfaces and the
/// failures together account for each object once.
pub proof fn lemma_failures_isolated<O: Object>(objs: Seq<O>, viewport: Viewport, programs: Seq<u32>)
    requires
        objs.len() <= usize::MAX,
    ensures
        forall|i: usize, e: RenderError|
            #[trigger] failures_of(objs, programs).contains((i, e)) <==> (i < objs.len()
                && object_error(objs[i as int], programs) == Some(e)),
        surfaces_of(objs, viewport, programs).len() + failures_of(objs, programs).len()
            == objs.len(),
    decreases objs.len(),
{
    if objs.len() > 0 {
        let init = objs.drop_last();
        lemma_failures_isolated(init, viewport, programs);
        let rest = failures_of(init, programs);
        let last = (objs.len() - 1) as usize;
        assert forall|i: usize, e: RenderError|
            #[trigger] failures_of(objs, programs).contains((i, e)) <==> (i < objs.len()
                && object_error(objs[i as int], programs) == Some(e)) by {
            if i < last {
                assert(objs[i as int] == init[i as int]);
            }
            if rest.contains((i, e)) {
                assert(i < init.len());
            }
            match object_error(objs.last(), programs) {
                Some(x) => {
                    assert(rest.push((last, x)).contains((i, e)) <==> (rest.contains((i, e)) || (
                    i, e) == (last, x))) by {
                        if rest.push((last, x)).contains((i, e)) {
                            let k = choose|k: int|
                                0 <= k < rest.push((last, x)).len() && rest.push((last, x))[k] == (
                                i,
                                e,
                            );
                            if k < rest.len() {
                                assert(rest[k] == (i, e));
                            }
                        }
                        if (i, e) == (last, x) {
                            assert(rest.push((last, x))[rest.len() as int] == (i, e));
                        }
                        if rest.contains((i, e)) {
                            let k = choose|k: int| 0 <= k < rest.len() && rest[k] == (i, e);
                            assert(rest.push((last, x))[k] == (i, e));
                        }
                    }
                },
                None => {},
            }
        }
    }
}

} // verus!
