//! Queueing: one draw item per batch and view, with the bind groups and
//! pipelines that the draws need.

use std::ops::Range;
use vstd::prelude::*;
use crate::extract::{AssetEvent, SpriteAssetEvents};
use crate::handle::HandleId;
use crate::handle_map::HandleMap;
use crate::math::Scalar;
use crate::pipeline::{
    is_variant, queued_after, specialized_after, specialized_id, CachedRenderPipelineId,
    PipelineCache, SpecializedRenderPipelines, SpritePipeline,
};
use crate::pipeline_key::{SpritePipelineKey, COLORED_BITS};
use crate::prepare::{BufferBinding, GpuImage, SpriteBatch, SpriteMeta};

verus! {

/// An entity of the render world.
#[derive(Clone, Copy, Debug, PartialEq, Eq, Hash, Structural)]
pub struct Entity {
    pub id: u32,
    pub generation: u32,
}

/// The identity of a draw function.
#[derive(Clone, Copy, Debug, PartialEq, Eq, Hash, Structural)]
pub struct DrawFunctionId(pub usize);

/// One draw of the phase of transparent 2D items.
#[derive(Debug, PartialEq, Eq)]
pub struct Transparent2d {
    /// The depth by which the phase sorts its items.
    pub sort_key: Scalar,
    pub entity: Entity,
    pub pipeline: CachedRenderPipelineId,
    pub draw_function: DrawFunctionId,
    /// Range in the vertex buffer of this item
    pub batch_range: Option<Range<u32>>,
}

/// The draw items of one view, in the order in which they were added.
#[derive(Debug)]
pub struct RenderPhase {
    pub items: Vec<Transparent2d>,
}

impl RenderPhase {
    /// A phase without items.
    pub fn new() -> (phase: RenderPhase)
        ensures
            phase.items@.len() == 0,
    {
        RenderPhase { items: Vec::new() }
    }

    /// Adds an item behind those that are there.
    pub fn add(&mut self, item: Transparent2d)
        ensures
            final(self).items@ == old(self).items@.push(item),
    {
        self.items.push(item);
    }
}

/// What is bound for a texture: its view and its sampler.
#[derive(Clone, Copy, Debug, PartialEq, Eq, Hash, Structural)]
pub struct ImageBindGroup {
    /// The identity of the texture view, at binding 0.
    pub texture_view: u128,
    /// The identity of the sampler, at binding 1.
    pub sampler: u128,
}

impl ImageBindGroup {
    /// What is bound for a texture as it now is on the GPU.
    pub open spec fn of(image: GpuImage) -> ImageBindGroup {
        ImageBindGroup { texture_view: image.texture_view, sampler: image.sampler }
    }
}

/// The bind groups of the textures, kept from frame to frame.
pub struct ImageBindGroups {
    pub values: HandleMap<ImageBindGroup>,
}

impl Default for ImageBindGroups {
    fn default() -> (groups: Self)
        ensures
            groups.values@ == (Map::<HandleId, ImageBindGroup>::empty()),
    {
        ImageBindGroups { values: HandleMap::new() }
    }
}

impl AssetEvent {
    /// The asset that the event makes stale, if it makes one stale: an asset
    /// that was modified or removed. One that was created was not known
    /// before.
    pub open spec fn stale(self) -> Option<HandleId> {
        match self {
            AssetEvent::Created { handle } => None,
            AssetEvent::Modified { handle } => Some(handle),
            AssetEvent::Removed { handle } => Some(handle),
        }
    }
}

/// Whether one of the events makes the asset stale.
pub open spec fn is_stale(events: Seq<AssetEvent>, handle: HandleId) -> bool {
    exists|i: int| 0 <= i < events.len() && (#[trigger] events[i]).stale() == Some(handle)
}

/// The bind groups that outlive the events: those of the textures that no
/// event makes stale.
pub open spec fn invalidated(
    values: Map<HandleId, ImageBindGroup>,
    events: Seq<AssetEvent>,
) -> Map<HandleId, ImageBindGroup> {
    Map::new(
        |handle: HandleId| values.contains_key(handle) && !is_stale(events, handle),
        |handle: HandleId| values[handle],
    )
}

/// Whether one of the batches has the texture.
pub open spec fn is_used(batches: Seq<(Entity, SpriteBatch)>, handle: HandleId) -> bool {
    exists|i: int| 0 <= i < batches.len() && (#[trigger] batches[i]).1.image_handle_id == handle
}

/// The bind groups after the batches were queued: those that were there,
/// and for every other texture of a batch one that is made from the texture
/// as it now is on the GPU.
pub open spec fn with_batches(
    values: Map<HandleId, ImageBindGroup>,
    batches: Seq<(Entity, SpriteBatch)>,
    images: Map<HandleId, GpuImage>,
) -> Map<HandleId, ImageBindGroup> {
    Map::new(
        |handle: HandleId| values.contains_key(handle) || is_used(batches, handle),
        |handle: HandleId|
            if values.contains_key(handle) {
                values[handle]
            } else {
                ImageBindGroup::of(images[handle])
            },
    )
}

/// The draw item of a batch: it draws the batch's range with the pipeline of
/// the batch's colour mode, and the phase sorts it by the batch's depth.
pub open spec fn batch_item(
    batch: (Entity, SpriteBatch),
    draw_function: DrawFunctionId,
    pipeline: CachedRenderPipelineId,
    colored_pipeline: CachedRenderPipelineId,
) -> Transparent2d {
    Transparent2d {
        draw_function,
        pipeline: if batch.1.colored {
            colored_pipeline
        } else {
            pipeline
        },
        entity: batch.0,
        sort_key: batch.1.z_order,
        batch_range: Some(batch.1.range),
    }
}

/// The draw items of the batches, in the batches' order.
pub open spec fn batch_items(
    batches: Seq<(Entity, SpriteBatch)>,
    draw_function: DrawFunctionId,
    pipeline: CachedRenderPipelineId,
    colored_pipeline: CachedRenderPipelineId,
) -> Seq<Transparent2d> {
    batches.map_values(
        |batch: (Entity, SpriteBatch)|
            batch_item(batch, draw_function, pipeline, colored_pipeline),
    )
}

/// Whether a bind group can be had for every batch: one that outlives the
/// events, or a texture on the GPU from which one is made.
pub open spec fn bind_groups_available(
    values: Map<HandleId, ImageBindGroup>,
    events: Seq<AssetEvent>,
    batches: Seq<(Entity, SpriteBatch)>,
    images: Map<HandleId, GpuImage>,
) -> bool {
    forall|i: int|
        0 <= i < batches.len() ==> invalidated(values, events).contains_key(
            (#[trigger] batches[i]).1.image_handle_id,
        ) || images.contains_key(batches[i].1.image_handle_id)
}

/// The packed word of the key for a sample count, without the colour bit.
pub open spec fn msaa_key(msaa_samples: u32) -> u32 {
    (((msaa_samples - 1) % 64) * 0x400_0000) as u32
}

/// After a texture was modified or removed, no bind group that was made
/// for it before is used again: none outlives the events, and if a batch
/// has the texture, its bind group is made anew from the texture as it now
/// is on the GPU.
pub proof fn lemma_stale_bind_group_is_remade(
    values: Map<HandleId, ImageBindGroup>,
    events: Seq<AssetEvent>,
    batches: Seq<(Entity, SpriteBatch)>,
    images: Map<HandleId, GpuImage>,
    handle: HandleId,
)
    requires
        is_stale(events, handle),
    ensures
        !invalidated(values, events).contains_key(handle),
        with_batches(invalidated(values, events), batches, images).contains_key(handle)
            <==> is_used(batches, handle),
        is_used(batches, handle) ==> with_batches(
            invalidated(values, events),
            batches,
            images,
        )[handle] == ImageBindGroup::of(images[handle]),
{
}

/// Once the batches were queued, the texture of every batch has a bind
/// group, so that the batch can be drawn.
pub proof fn lemma_queued_batches_can_be_drawn(
    values: Map<HandleId, ImageBindGroup>,
    batches: Seq<(Entity, SpriteBatch)>,
    images: Map<HandleId, GpuImage>,
    i: int,
)
    requires
        0 <= i < batches.len(),
    ensures
        with_batches(values, batches, images).contains_key(batches[i].1.image_handle_id),
{
    assert(is_used(batches, batches[i].1.image_handle_id));
}

impl ImageBindGroups {
    /// Forgets the bind group of every texture that was modified or removed.
    pub fn invalidate(&mut self, events: &SpriteAssetEvents)
        ensures
            final(self).values@ == invalidated(old(self).values@, events.images@),
    {
        let mut i: usize = 0;
        assert(self.values@ =~= invalidated(old(self).values@, events.images@.take(0)));
        while i < events.images.len()
            invariant
                i <= events.images.len(),
                self.values@ == invalidated(old(self).values@, events.images@.take(i as int)),
            decreases events.images.len() - i,
        {
            let ghost before = events.images@.take(i as int);
            let ghost after = events.images@.take(i + 1);
            assert(after =~= before.push(events.images@[i as int]));
            // If an image has changed, the GpuImage has (probably) changed
            match events.images[i] {
                AssetEvent::Created { .. } => {},
                AssetEvent::Modified { handle } | AssetEvent::Removed { handle } => {
                    self.values.remove(&handle);
                },
            }
            proof {
                let event = events.images@[i as int];
                assert forall|handle: HandleId|
                    is_stale(after, handle) <==> is_stale(before, handle) || event.stale() == Some(
                        handle,
                    ) by {
                    if is_stale(before, handle) {
                        let k = choose|k: int|
                            0 <= k < before.len() && (#[trigger] before[k]).stale() == Some(handle);
                        assert(after[k].stale() == Some(handle));
                    }
                    if event.stale() == Some(handle) {
                        assert(after[i as int].stale() == Some(handle));
                    }
                    if is_stale(after, handle) {
                        let k = choose|k: int|
                            0 <= k < after.len() && (#[trigger] after[k]).stale() == Some(handle);
                        if k < i {
                            assert(before[k].stale() == Some(handle));
                        }
                    }
                }
                assert(self.values@ =~= invalidated(old(self).values@, after));
            }
            i += 1;
        }
        assert(events.images@.take(i as int) =~= events.images@);
    }

    /// The bind group of a texture, made from the texture as it now is on
    /// the GPU unless one is there already.
    pub fn get_or_create(&mut self, handle: HandleId, gpu_images: &HandleMap<GpuImage>) -> (group:
        ImageBindGroup)
        requires
            old(self).values@.contains_key(handle) || gpu_images@.contains_key(handle),
        ensures
            final(self).values@ == (if old(self).values@.contains_key(handle) {
                old(self).values@
            } else {
                old(self).values@.insert(handle, ImageBindGroup::of(gpu_images@[handle]))
            }),
            group == final(self).values@[handle],
    {
        match self.values.get(&handle) {
            Some(group) => *group,
            None => {
                let gpu_image = gpu_images.get(&handle).unwrap();
                let group = ImageBindGroup {
                    texture_view: gpu_image.texture_view,
                    sampler: gpu_image.sampler,
                };
                self.values.insert(handle, group);
                group
            },
        }
    }
}

/// Queues the batches for drawing.
///
/// First the bind group of every texture that was modified or removed is
/// forgotten. If the view's uniforms have no binding, nothing else happens.
/// Otherwise the binding becomes the view's bind group, the pipelines of
/// both colour modes are looked up or made for the sample count, and every
/// view's phase gets one draw item for every batch, in the batches' order.
/// Where there is a view, every batch's texture has a bind group
/// afterwards.
pub fn queue_sprites(
    draw_sprite_function: DrawFunctionId,
    sprite_meta: &mut SpriteMeta,
    view_binding: Option<BufferBinding>,
    sprite_pipeline: &SpritePipeline,
    pipelines: &mut SpecializedRenderPipelines,
    pipeline_cache: &mut PipelineCache,
    image_bind_groups: &mut ImageBindGroups,
    gpu_images: &HandleMap<GpuImage>,
    msaa_samples: u32,
    sprite_batches: &Vec<(Entity, SpriteBatch)>,
    views: &mut Vec<RenderPhase>,
    events: &SpriteAssetEvents,
)
    requires
        msaa_samples >= 1,
        view_binding is Some && old(views)@.len() > 0 ==> bind_groups_available(
            old(image_bind_groups).values@,
            events.images@,
            sprite_batches@,
            gpu_images@,
        ),
    ensures
        final(sprite_meta).quads == old(sprite_meta).quads,
        final(sprite_meta).colored_quads == old(sprite_meta).colored_quads,
        final(views)@.len() == old(views)@.len(),
        view_binding is None ==> {
            &&& final(image_bind_groups).values@ == invalidated(
                old(image_bind_groups).values@,
                events.images@,
            )
            &&& final(sprite_meta).view_bind_group == old(sprite_meta).view_bind_group
            &&& final(pipelines)@ == old(pipelines)@
            &&& final(pipeline_cache).pipelines@ == old(pipeline_cache).pipelines@
            &&& forall|v: int|
                0 <= v < old(views)@.len() ==> (#[trigger] final(views)@[v]).items@ == old(
                    views,
                )@[v].items@
        },
        view_binding is Some ==> {
            let key = msaa_key(msaa_samples);
            let colored_key = key | COLORED_BITS;
            let queued = old(pipeline_cache).pipelines@.len();
            let pipeline = specialized_id(old(pipelines)@, queued, key);
            let specialized = specialized_after(old(pipelines)@, queued, key);
            let queued = queued_after(old(pipelines)@, queued, key);
            let colored_pipeline = specialized_id(specialized, queued, colored_key);
            &&& final(sprite_meta).view_bind_group == view_binding
            &&& final(pipelines)@ == specialized_after(specialized, queued, colored_key)
            &&& final(pipeline_cache).pipelines@.len() == queued_after(
                specialized,
                queued,
                colored_key,
            )
            &&& final(pipeline_cache).pipelines@.take(
                old(pipeline_cache).pipelines@.len() as int,
            ) == old(pipeline_cache).pipelines@
            &&& !old(pipelines)@.contains_key(key) ==> is_variant(
                final(pipeline_cache).pipelines@[pipeline as int],
                *sprite_pipeline,
                false,
                (msaa_samples - 1) % 64 + 1,
            )
            &&& !specialized.contains_key(colored_key) ==> is_variant(
                final(pipeline_cache).pipelines@[colored_pipeline as int],
                *sprite_pipeline,
                true,
                (msaa_samples - 1) % 64 + 1,
            )
            &&& final(image_bind_groups).values@ == (if old(views)@.len() > 0 {
                with_batches(
                    invalidated(old(image_bind_groups).values@, events.images@),
                    sprite_batches@,
                    gpu_images@,
                )
            } else {
                invalidated(old(image_bind_groups).values@, events.images@)
            })
            &&& forall|v: int|
                0 <= v < old(views)@.len() ==> (#[trigger] final(views)@[v]).items@ == old(
                    views,
                )@[v].items@ + batch_items(
                    sprite_batches@,
                    draw_sprite_function,
                    CachedRenderPipelineId(pipeline as usize),
                    CachedRenderPipelineId(colored_pipeline as usize),
                )
        },
{
    image_bind_groups.invalidate(events);

    if let Some(view_binding) = view_binding {
        sprite_meta.view_bind_group = Some(view_binding);

        let key = SpritePipelineKey::from_msaa_samples(msaa_samples);
        let pipeline = pipelines.specialize(pipeline_cache, sprite_pipeline, key);
        let ghost queued = pipeline_cache.pipelines@;
        let colored_pipeline = pipelines.specialize(
            pipeline_cache,
            sprite_pipeline,
            key.union(SpritePipelineKey::colored()),
        );
        proof {
            let first = old(pipeline_cache).pipelines@.len() as int;
            assert(pipeline_cache.pipelines@.take(first) =~= pipeline_cache.pipelines@.take(
                queued.len() as int,
            ).take(first));
            if queued.len() > first {
                assert(pipeline_cache.pipelines@.take(queued.len() as int)[first]
                    == pipeline_cache.pipelines@[first]);
            }
        }

        let ghost kept = image_bind_groups.values@;
        let ghost all = with_batches(kept, sprite_batches@, gpu_images@);
        let ghost items = batch_items(
            sprite_batches@,
            draw_sprite_function,
            pipeline,
            colored_pipeline,
        );
        let mut v: usize = 0;
        while v < views.len()
            invariant
                v <= views.len(),
                views@.len() == old(views)@.len(),
                kept == invalidated(old(image_bind_groups).values@, events.images@),
                all == with_batches(kept, sprite_batches@, gpu_images@),
                items == batch_items(
                    sprite_batches@,
                    draw_sprite_function,
                    pipeline,
                    colored_pipeline,
                ),
                old(views)@.len() > 0 ==> bind_groups_available(
                    old(image_bind_groups).values@,
                    events.images@,
                    sprite_batches@,
                    gpu_images@,
                ),
                image_bind_groups.values@ == (if v > 0 {
                    all
                } else {
                    kept
                }),
                forall|u: int| 0 <= u < v ==> (#[trigger] views@[u]).items@ == old(views)@[u].items@ + items,
                forall|u: int|
                    v <= u < views@.len() ==> (#[trigger] views@[u]).items@ == old(views)@[u].items@,
            decreases views.len() - v,
        {
            let ghost base = image_bind_groups.values@;
            let ghost phase_before = views@[v as int].items@;
            let ghost views_before = views@;
            let mut b: usize = 0;
            assert(base =~= with_batches(base, sprite_batches@.take(0), gpu_images@)) by {
                assert forall|handle: HandleId| !is_used(sprite_batches@.take(0), handle) by {}
            }
            assert(phase_before =~= phase_before + items.take(0));
            while b < sprite_batches.len()
                invariant
                    b <= sprite_batches.len(),
                    v < views.len(),
                    views@.len() == views_before.len(),
                    kept == invalidated(old(image_bind_groups).values@, events.images@),
                    base == kept || base == with_batches(kept, sprite_batches@, gpu_images@),
                    bind_groups_available(
                        old(image_bind_groups).values@,
                        events.images@,
                        sprite_batches@,
                        gpu_images@,
                    ),
                    items == batch_items(
                        sprite_batches@,
                        draw_sprite_function,
                        pipeline,
                        colored_pipeline,
                    ),
                    image_bind_groups.values@ == with_batches(
                        base,
                        sprite_batches@.take(b as int),
                        gpu_images@,
                    ),
                    views@[v as int].items@ == phase_before + items.take(b as int),
                    forall|u: int|
                        0 <= u < views@.len() && u != v ==> (#[trigger] views@[u]) == views_before[u],
                decreases sprite_batches.len() - b,
            {
                let entity = sprite_batches[b].0;
                let sprite_batch = &sprite_batches[b].1;
                let ghost done = sprite_batches@.take(b as int);
                let ghost next = sprite_batches@.take(b + 1);
                proof {
                    assert(next =~= done.push(sprite_batches@[b as int]));
                    assert(sprite_batches@[b as int].1.image_handle_id
                        == sprite_batch.image_handle_id);
                }
                let _ = image_bind_groups.get_or_create(sprite_batch.image_handle_id, gpu_images);
                proof {
                    let batch = sprite_batches@[b as int];
                    assert forall|handle: HandleId|
                        is_used(next, handle) <==> is_used(done, handle) || handle
                            == batch.1.image_handle_id by {
                        if is_used(done, handle) {
                            let k = choose|k: int|
                                0 <= k < done.len() && (#[trigger] done[k]).1.image_handle_id
                                    == handle;
                            assert(next[k].1.image_handle_id == handle);
                        }
                        if handle == batch.1.image_handle_id {
                            assert(next[b as int].1.image_handle_id == handle);
                        }
                        if is_used(next, handle) {
                            let k = choose|k: int|
                                0 <= k < next.len() && (#[trigger] next[k]).1.image_handle_id
                                    == handle;
                            if k < b {
                                assert(done[k].1.image_handle_id == handle);
                            }
                        }
                    }
                    assert(image_bind_groups.values@ =~= with_batches(base, next, gpu_images@));
                }

                // These items will be sorted by depth with other phase items
                let sort_key = sprite_batch.z_order;

                // Store the vertex data and add the item to the render phase
                let item = if sprite_batch.colored {
                    Transparent2d {
                        draw_function: draw_sprite_function,
                        pipeline: colored_pipeline,
                        entity,
                        sort_key,
                        batch_range: Some(sprite_batch.range.start..sprite_batch.range.end),
                    }
                } else {
                    Transparent2d {
                        draw_function: draw_sprite_function,
                        pipeline,
                        entity,
                        sort_key,
                        batch_range: Some(sprite_batch.range.start..sprite_batch.range.end),
                    }
                };
                views[v].add(item);
                b += 1;
                assert(views@[v as int].items@ =~= phase_before + items.take(b as int));
            }
            proof {
                assert(sprite_batches@.take(b as int) =~= sprite_batches@);
                assert(items.take(b as int) =~= items);
                assert(with_batches(base, sprite_batches@, gpu_images@) =~= all);
            }
            v += 1;
        }
    }
}

} // verus!
