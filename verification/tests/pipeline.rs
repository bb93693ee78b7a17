use sprite_render::pipeline::{
    BindGroupLayoutEntry, BindingType, PipelineCache, SpecializedRenderPipelines, SpritePipeline,
    VertexAttribute, VertexFormat, VertexStepMode,
};
use sprite_render::pipeline_key::SpritePipelineKey;

#[test]
fn sample_count_round_trips_through_the_key() {
    for samples in 1..=64u32 {
        let key = SpritePipelineKey::from_msaa_samples(samples);
        assert_eq!(key.msaa_samples(), samples);
        assert_eq!(key.bits(), (samples - 1) << 26);
        assert!(!key.contains(SpritePipelineKey::colored()));
    }
    assert_eq!(SpritePipelineKey::from_msaa_samples(4).bits(), 0x0c00_0000);
    assert_eq!(SpritePipelineKey::from_msaa_samples(65).msaa_samples(), 1);
    assert_eq!(SpritePipelineKey::from_msaa_samples(70).msaa_samples(), 6);
}

#[test]
fn colour_bit_leaves_the_sample_count_alone() {
    let key = SpritePipelineKey::from_msaa_samples(8).union(SpritePipelineKey::colored());
    assert_eq!(key.bits(), (7 << 26) | 1);
    assert_eq!(key.msaa_samples(), 8);
    assert!(key.contains(SpritePipelineKey::colored()));
    assert!(key.contains(SpritePipelineKey::none()));
    assert!(!SpritePipelineKey::none().contains(SpritePipelineKey::colored()));
    assert_eq!(SpritePipelineKey::none().msaa_samples(), 1);
    assert_eq!(SpritePipelineKey::msaa_reserved_bits().msaa_samples(), 64);
}

#[test]
fn key_is_made_from_its_own_bits_only() {
    assert_eq!(SpritePipelineKey::from_bits(1), Some(SpritePipelineKey::colored()));
    assert_eq!(SpritePipelineKey::from_bits(0), Some(SpritePipelineKey::none()));
    assert_eq!(
        SpritePipelineKey::from_bits(0xfc00_0001).map(|key| key.bits()),
        Some(0xfc00_0001)
    );
    assert_eq!(SpritePipelineKey::from_bits(2), None);
    assert_eq!(SpritePipelineKey::from_bits(0x0200_0000), None);
}

#[test]
fn uncoloured_variant_has_position_and_uv() {
    let pipeline = SpritePipeline::new(11, 22);
    let descriptor = pipeline.specialize(SpritePipelineKey::from_msaa_samples(4));
    assert_eq!(descriptor.label, "sprite_pipeline");
    assert_eq!(descriptor.layout, vec![11, 22]);
    assert_eq!(descriptor.vertex_entry_point, "vertex");
    assert_eq!(descriptor.fragment_entry_point, "fragment");
    assert!(descriptor.shader_defs.is_empty());
    assert_eq!(descriptor.sample_count, 4);
    assert_eq!(descriptor.vertex_buffer.array_stride, 20);
    assert_eq!(descriptor.vertex_buffer.step_mode, VertexStepMode::Vertex);
    assert_eq!(
        descriptor.vertex_buffer.attributes,
        vec![
            VertexAttribute { format: VertexFormat::Float32x3, offset: 0, shader_location: 0 },
            VertexAttribute { format: VertexFormat::Float32x2, offset: 12, shader_location: 1 },
        ]
    );
}

#[test]
fn coloured_variant_adds_the_colour() {
    let pipeline = SpritePipeline::new(11, 22);
    let key = SpritePipelineKey::from_msaa_samples(1).union(SpritePipelineKey::colored());
    let descriptor = pipeline.specialize(key);
    assert_eq!(descriptor.shader_defs, vec!["COLORED"]);
    assert_eq!(descriptor.sample_count, 1);
    assert_eq!(descriptor.vertex_buffer.array_stride, 36);
    assert_eq!(
        descriptor.vertex_buffer.attributes,
        vec![
            VertexAttribute { format: VertexFormat::Float32x3, offset: 0, shader_location: 0 },
            VertexAttribute { format: VertexFormat::Float32x2, offset: 12, shader_location: 1 },
            VertexAttribute { format: VertexFormat::Float32x4, offset: 20, shader_location: 2 },
        ]
    );
}

#[test]
fn layouts_of_view_and_material() {
    let (view, material) = SpritePipeline::layouts();
    assert_eq!(view.label, "sprite_view_layout");
    assert_eq!(view.entries.len(), 1);
    assert_eq!(view.entries[0].binding, 0);
    assert!(view.entries[0].vertex && view.entries[0].fragment);
    match view.entries[0].ty {
        BindingType::Buffer { has_dynamic_offset, min_binding_size } => {
            assert!(has_dynamic_offset);
            assert!(min_binding_size > 0);
        }
        other => panic!("not a buffer: {:?}", other),
    }
    assert_eq!(material.label, "sprite_material_layout");
    assert_eq!(
        material.entries,
        vec![
            BindGroupLayoutEntry {
                binding: 0,
                vertex: false,
                fragment: true,
                ty: BindingType::Texture { multisampled: false, filterable: true },
            },
            BindGroupLayoutEntry {
                binding: 1,
                vertex: false,
                fragment: true,
                ty: BindingType::Sampler,
            },
        ]
    );
}

#[test]
fn same_key_gives_the_same_pipeline_and_adds_nothing() {
    let pipeline = SpritePipeline::new(1, 2);
    let mut cache = PipelineCache::new();
    let mut pipelines = SpecializedRenderPipelines::new();
    let key = SpritePipelineKey::from_msaa_samples(4);
    let colored = key.union(SpritePipelineKey::colored());
    assert_eq!(pipelines.get(key), None);
    let first = pipelines.specialize(&mut cache, &pipeline, key);
    assert_eq!(first.0, 0);
    assert_eq!(cache.pipelines.len(), 1);
    let again = pipelines.specialize(&mut cache, &pipeline, key);
    assert_eq!(again, first);
    assert_eq!(cache.pipelines.len(), 1);
    let other = pipelines.specialize(&mut cache, &pipeline, colored);
    assert_eq!(other.0, 1);
    assert_eq!(cache.pipelines.len(), 2);
    assert_eq!(pipelines.specialize(&mut cache, &pipeline, colored), other);
    assert_eq!(pipelines.specialize(&mut cache, &pipeline, key), first);
    assert_eq!(cache.pipelines.len(), 2);
    assert_eq!(pipelines.get(key), Some(first));
    assert_eq!(cache.pipelines[0].sample_count, 4);
    assert!(cache.pipelines[0].shader_defs.is_empty());
    assert_eq!(cache.pipelines[1].shader_defs, vec!["COLORED"]);
}

#[test]
fn queued_pipeline_gets_the_next_place() {
    let pipeline = SpritePipeline::new(1, 2);
    let mut cache = PipelineCache::new();
    let a = cache.queue_render_pipeline(pipeline.specialize(SpritePipelineKey::none()));
    let b = cache.queue_render_pipeline(pipeline.specialize(SpritePipelineKey::colored()));
    assert_eq!((a.0, b.0), (0, 1));
    assert_eq!(cache.pipelines[1].vertex_buffer.array_stride, 36);
}
