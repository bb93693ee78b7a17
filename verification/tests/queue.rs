use sprite_render::draw::{
    BoundResources, DrawSpriteBatch, PassCommand, RenderCommandResult, SetSpriteTextureBindGroup,
    SetSpriteViewBindGroup, TrackedRenderPass,
};
use sprite_render::extract::{AssetEvent, SpriteAssetEvents};
use sprite_render::handle::HandleId;
use sprite_render::handle_map::HandleMap;
use sprite_render::math::{Scalar, Vec2};
use sprite_render::pipeline::{
    CachedRenderPipelineId, PipelineCache, SpecializedRenderPipelines, SpritePipeline,
};
use sprite_render::prepare::{BufferBinding, GpuImage, SpriteBatch, SpriteMeta};
use sprite_render::queue::{
    queue_sprites, DrawFunctionId, Entity, ImageBindGroup, ImageBindGroups, RenderPhase,
    Transparent2d,
};

fn depth(value: f32) -> Scalar {
    Scalar::from_bits(value.to_bits())
}

fn image(n: u64) -> HandleId {
    HandleId::Id(7, n)
}

fn gpu_image(view: u128, sampler: u128) -> GpuImage {
    GpuImage { size: Vec2::new(depth(8.0), depth(8.0)), texture_view: view, sampler }
}

fn batch(entity: u32, texture: u64, colored: bool, start: u32, end: u32, z: f32) -> (Entity, SpriteBatch) {
    (
        Entity { id: entity, generation: 0 },
        SpriteBatch { range: start..end, image_handle_id: image(texture), colored, z_order: depth(z) },
    )
}

fn binding() -> BufferBinding {
    BufferBinding { buffer: 42, offset: 0, size: Some(256) }
}

struct Frame {
    meta: SpriteMeta,
    pipelines: SpecializedRenderPipelines,
    cache: PipelineCache,
    groups: ImageBindGroups,
    images: HandleMap<GpuImage>,
    views: Vec<RenderPhase>,
}

fn frame(views: usize) -> Frame {
    let mut images = HandleMap::new();
    images.insert(image(1), gpu_image(101, 201));
    images.insert(image(2), gpu_image(102, 202));
    Frame {
        meta: SpriteMeta::default(),
        pipelines: SpecializedRenderPipelines::new(),
        cache: PipelineCache::new(),
        groups: ImageBindGroups::default(),
        images,
        views: (0..views).map(|_| RenderPhase::new()).collect(),
    }
}

fn queue(
    frame: &mut Frame,
    view_binding: Option<BufferBinding>,
    samples: u32,
    batches: &Vec<(Entity, SpriteBatch)>,
    events: Vec<AssetEvent>,
) {
    queue_sprites(
        DrawFunctionId(5),
        &mut frame.meta,
        view_binding,
        &SpritePipeline::new(1, 2),
        &mut frame.pipelines,
        &mut frame.cache,
        &mut frame.groups,
        &frame.images,
        samples,
        batches,
        &mut frame.views,
        &SpriteAssetEvents { images: events },
    );
}

#[test]
fn one_item_per_batch_and_view() {
    let mut frame = frame(2);
    let batches = vec![batch(1, 1, false, 0, 12, 0.5), batch(2, 2, true, 0, 6, 1.5)];
    queue(&mut frame, Some(binding()), 4, &batches, vec![]);
    let expected = vec![
        Transparent2d {
            sort_key: depth(0.5),
            entity: Entity { id: 1, generation: 0 },
            pipeline: CachedRenderPipelineId(0),
            draw_function: DrawFunctionId(5),
            batch_range: Some(0..12),
        },
        Transparent2d {
            sort_key: depth(1.5),
            entity: Entity { id: 2, generation: 0 },
            pipeline: CachedRenderPipelineId(1),
            draw_function: DrawFunctionId(5),
            batch_range: Some(0..6),
        },
    ];
    assert_eq!(frame.views.len(), 2);
    assert_eq!(frame.views[0].items, expected);
    assert_eq!(frame.views[1].items, expected);
    assert_eq!(frame.meta.view_bind_group, Some(binding()));
    assert_eq!(frame.cache.pipelines.len(), 2);
    assert_eq!(frame.cache.pipelines[0].sample_count, 4);
    assert!(frame.cache.pipelines[0].shader_defs.is_empty());
    assert_eq!(frame.cache.pipelines[1].shader_defs, vec!["COLORED"]);
    assert_eq!(
        frame.groups.values.get(&image(1)),
        Some(&ImageBindGroup { texture_view: 101, sampler: 201 })
    );
    assert_eq!(
        frame.groups.values.get(&image(2)),
        Some(&ImageBindGroup { texture_view: 102, sampler: 202 })
    );
}

#[test]
fn items_are_added_behind_those_that_are_there() {
    let mut frame = frame(1);
    let batches = vec![batch(1, 1, false, 0, 6, 0.0)];
    queue(&mut frame, Some(binding()), 1, &batches, vec![]);
    queue(&mut frame, Some(binding()), 1, &batches, vec![]);
    assert_eq!(frame.views[0].items.len(), 2);
    assert_eq!(frame.views[0].items[0], frame.views[0].items[1]);
    assert_eq!(frame.cache.pipelines.len(), 2);
}

#[test]
fn nothing_is_queued_without_view_uniforms() {
    let mut frame = frame(2);
    frame.groups.values.insert(image(1), ImageBindGroup { texture_view: 1, sampler: 1 });
    frame.groups.values.insert(image(2), ImageBindGroup { texture_view: 2, sampler: 2 });
    let batches = vec![batch(1, 1, false, 0, 6, 0.0)];
    queue(&mut frame, None, 4, &batches, vec![AssetEvent::Removed { handle: image(2) }]);
    assert!(frame.views.iter().all(|view| view.items.is_empty()));
    assert_eq!(frame.meta.view_bind_group, None);
    assert!(frame.cache.pipelines.is_empty());
    assert_eq!(frame.pipelines.get(sprite_render::pipeline_key::SpritePipelineKey::none()), None);
    assert!(frame.groups.values.contains_key(&image(1)));
    assert!(!frame.groups.values.contains_key(&image(2)));
}

#[test]
fn no_bind_group_is_made_without_a_view() {
    let mut frame = frame(0);
    let batches = vec![batch(1, 1, false, 0, 6, 0.0)];
    queue(&mut frame, Some(binding()), 4, &batches, vec![]);
    assert!(!frame.groups.values.contains_key(&image(1)));
    assert_eq!(frame.cache.pipelines.len(), 2);
    assert_eq!(frame.meta.view_bind_group, Some(binding()));
}

#[test]
fn stale_bind_group_is_made_anew() {
    let mut frame = frame(1);
    let batches = vec![batch(1, 1, false, 0, 6, 0.0), batch(2, 2, false, 6, 12, 1.0)];
    queue(&mut frame, Some(binding()), 4, &batches, vec![]);
    frame.images.insert(image(1), gpu_image(111, 211));
    frame.images.insert(image(2), gpu_image(112, 212));
    queue(&mut frame, Some(binding()), 4, &batches, vec![AssetEvent::Modified { handle: image(1) }]);
    assert_eq!(
        frame.groups.values.get(&image(1)),
        Some(&ImageBindGroup { texture_view: 111, sampler: 211 })
    );
    assert_eq!(
        frame.groups.values.get(&image(2)),
        Some(&ImageBindGroup { texture_view: 102, sampler: 202 })
    );
    frame.images.insert(image(2), gpu_image(122, 222));
    queue(&mut frame, Some(binding()), 4, &batches, vec![AssetEvent::Removed { handle: image(2) }]);
    assert_eq!(
        frame.groups.values.get(&image(2)),
        Some(&ImageBindGroup { texture_view: 122, sampler: 222 })
    );
}

#[test]
fn created_texture_keeps_its_bind_group() {
    let mut frame = frame(1);
    let batches = vec![batch(1, 1, false, 0, 6, 0.0)];
    queue(&mut frame, Some(binding()), 4, &batches, vec![]);
    frame.images.insert(image(1), gpu_image(111, 211));
    queue(&mut frame, Some(binding()), 4, &batches, vec![AssetEvent::Created { handle: image(1) }]);
    assert_eq!(
        frame.groups.values.get(&image(1)),
        Some(&ImageBindGroup { texture_view: 101, sampler: 201 })
    );
}

#[test]
fn removed_texture_without_batch_has_no_bind_group() {
    let mut frame = frame(1);
    queue(&mut frame, Some(binding()), 4, &vec![batch(1, 1, false, 0, 6, 0.0)], vec![]);
    queue(
        &mut frame,
        Some(binding()),
        4,
        &vec![],
        vec![AssetEvent::Removed { handle: image(1) }, AssetEvent::Removed { handle: image(9) }],
    );
    assert!(!frame.groups.values.contains_key(&image(1)));
}

#[test]
fn invalidate_and_get_or_create() {
    let mut frame = frame(0);
    let first = frame.groups.get_or_create(image(1), &frame.images);
    assert_eq!(first, ImageBindGroup { texture_view: 101, sampler: 201 });
    frame.images.insert(image(1), gpu_image(5, 6));
    assert_eq!(frame.groups.get_or_create(image(1), &frame.images), first);
    frame.groups.invalidate(&SpriteAssetEvents {
        images: vec![AssetEvent::Created { handle: image(1) }],
    });
    assert_eq!(frame.groups.get_or_create(image(1), &frame.images), first);
    frame.groups.invalidate(&SpriteAssetEvents {
        images: vec![AssetEvent::Modified { handle: image(1) }],
    });
    assert_eq!(
        frame.groups.get_or_create(image(1), &frame.images),
        ImageBindGroup { texture_view: 5, sampler: 6 }
    );
}

#[test]
fn sample_count_selects_the_pipelines() {
    let mut frame = frame(1);
    let batches = vec![batch(1, 1, true, 0, 6, 0.0)];
    queue(&mut frame, Some(binding()), 4, &batches, vec![]);
    queue(&mut frame, Some(binding()), 1, &batches, vec![]);
    queue(&mut frame, Some(binding()), 4, &batches, vec![]);
    let pipelines: Vec<usize> = frame.views[0].items.iter().map(|item| item.pipeline.0).collect();
    assert_eq!(pipelines, vec![1, 3, 1]);
    assert_eq!(frame.cache.pipelines.len(), 4);
    assert_eq!(frame.cache.pipelines[2].sample_count, 1);
    assert_eq!(frame.cache.pipelines[3].vertex_buffer.array_stride, 36);
}

#[test]
fn view_bind_group_is_bound_with_its_offset() {
    let mut meta = SpriteMeta::default();
    meta.view_bind_group = Some(binding());
    let mut pass = TrackedRenderPass::new();
    let result = SetSpriteViewBindGroup::<0>::render(768, &meta, &mut pass);
    assert_eq!(result, RenderCommandResult::Success);
    assert_eq!(
        pass.commands,
        vec![PassCommand::SetBindGroup {
            index: 0,
            bind_group: BoundResources::View(binding()),
            dynamic_offset: Some(768),
        }]
    );
}

#[test]
fn texture_bind_group_is_bound_without_offset() {
    let mut groups = ImageBindGroups::default();
    groups.values.insert(image(3), ImageBindGroup { texture_view: 8, sampler: 9 });
    let (_, sprite_batch) = batch(1, 3, false, 0, 6, 0.0);
    let mut pass = TrackedRenderPass::new();
    let result = SetSpriteTextureBindGroup::<1>::render(&sprite_batch, &groups, &mut pass);
    assert_eq!(result, RenderCommandResult::Success);
    assert_eq!(
        pass.commands,
        vec![PassCommand::SetBindGroup {
            index: 1,
            bind_group: BoundResources::Image(ImageBindGroup { texture_view: 8, sampler: 9 }),
            dynamic_offset: None,
        }]
    );
}

#[test]
fn batch_is_drawn_from_the_buffer_of_its_colour_mode() {
    let mut pass = TrackedRenderPass::new();
    let (_, white) = batch(1, 3, false, 0, 6, 0.0);
    let (_, colored) = batch(2, 3, true, 6, 18, 0.0);
    DrawSpriteBatch::render(&Some(0..6), &white, &mut pass);
    DrawSpriteBatch::render(&Some(6..18), &colored, &mut pass);
    assert_eq!(
        pass.commands,
        vec![
            PassCommand::SetVertexBuffer { slot: 0, colored: false },
            PassCommand::Draw { vertices: 0..6, instances: 0..1 },
            PassCommand::SetVertexBuffer { slot: 0, colored: true },
            PassCommand::Draw { vertices: 6..18, instances: 0..1 },
        ]
    );
}
