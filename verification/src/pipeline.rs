//! Which bind group layouts each render pipeline is built with.
//!
//! The layouts come in a fixed order: camera, texture, object transform,
//! hyper shape, w-slice. The mesh pipelines (basic and grid) take the first
//! three; the hyper pipeline takes the camera layout and everything from the
//! object transform on, skipping the texture. Each material names the shader,
//! and so the pipeline, it is drawn with.

use vstd::prelude::*;

verus! {

/// The shader a material is drawn with.
#[derive(Clone, Copy, Debug, PartialEq, Eq, Structural)]
pub enum ShaderType {
    Basic,
    Grid,
    Hyper,
}

/// One render pipeline per shader, of whatever type `P` the caller builds.
pub struct PipelineStore<P> {
    pub grid: P,
    pub basic: P,
    pub hyper: P,
}

/// The pipeline of `pipeline_store` that draws with `shader_type`.
pub open spec fn spec_pipeline_for<P>(shader_type: ShaderType, pipeline_store: PipelineStore<P>) -> P {
    match shader_type {
        ShaderType::Basic => pipeline_store.basic,
        ShaderType::Grid => pipeline_store.grid,
        ShaderType::Hyper => pipeline_store.hyper,
    }
}

/// Picks the pipeline for a material's shader.
pub fn deduce_pipeline<P>(shader_type: ShaderType, pipeline_store: &PipelineStore<P>) -> (pipeline: &P)
    ensures
        *pipeline == spec_pipeline_for(shader_type, *pipeline_store),
{
    match shader_type {
        ShaderType::Basic => &pipeline_store.basic,
        ShaderType::Grid => &pipeline_store.grid,
        ShaderType::Hyper => &pipeline_store.hyper,
    }
}

/// The layouts of the mesh pipelines: the first three.
pub fn basic_bind_group_layouts<T: Copy>(bind_group_layouts: &[T]) -> (layouts: Vec<T>)
    requires
        bind_group_layouts@.len() >= 3,
    ensures
        layouts@ == bind_group_layouts@.take(3),
{
    let mut layouts: Vec<T> = Vec::new();
    for i in 0..3
        invariant
            bind_group_layouts@.len() >= 3,
            layouts@ == bind_group_layouts@.take(i as int),
    {
        layouts.push(bind_group_layouts[i]);
        assert(bind_group_layouts@.take(i + 1) =~= bind_group_layouts@.take(i as int).push(
            bind_group_layouts@[i as int],
        ));
    }
    layouts
}

/// The layouts of the hyper pipeline: the first one, then all from the third on.
pub fn hyper_bind_group_layouts<T: Copy>(bind_group_layouts: &[T]) -> (layouts: Vec<T>)
    requires
        bind_group_layouts@.len() >= 2,
    ensures
        layouts@ == bind_group_layouts@.take(1) + bind_group_layouts@.skip(2),
{
    let n = bind_group_layouts.len();
    let mut layouts: Vec<T> = Vec::new();
    layouts.push(bind_group_layouts[0]);
    for i in 2..n
        invariant
            n == bind_group_layouts@.len(),
            n >= 2,
            layouts@ == bind_group_layouts@.take(1) + bind_group_layouts@.subrange(2, i as int),
    {
        layouts.push(bind_group_layouts[i]);
        assert(bind_group_layouts@.subrange(2, i + 1) =~= bind_group_layouts@.subrange(
            2,
            i as int,
        ).push(bind_group_layouts@[i as int]));
        assert(bind_group_layouts@.take(1) + bind_group_layouts@.subrange(2, i + 1) =~= (
        bind_group_layouts@.take(1) + bind_group_layouts@.subrange(2, i as int)).push(
            bind_group_layouts@[i as int],
        ));
    }
    assert(bind_group_layouts@.subrange(2, n as int) =~= bind_group_layouts@.skip(2));
    layouts
}

/// Both kinds of pipeline see the camera layout first, and the hyper pipeline
/// sees the object transform layout where the mesh pipelines see the texture.
pub proof fn law_layouts_share_camera<T>(bind_group_layouts: Seq<T>)
    requires
        bind_group_layouts.len() >= 3,
    ensures
        bind_group_layouts.take(3)[0] == (bind_group_layouts.take(1) + bind_group_layouts.skip(
            2,
        ))[0],
        (bind_group_layouts.take(1) + bind_group_layouts.skip(2))[1] == bind_group_layouts.take(
            3,
        )[2],
        (bind_group_layouts.take(1) + bind_group_layouts.skip(2)).len() == bind_group_layouts.len()
            - 1,
{
}

} // verus!
