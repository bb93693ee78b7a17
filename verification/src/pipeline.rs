//! The sprite pipeline: its bind group layouts, the variants into which it
//! is specialised, and the cache of the variants that were asked for.

use std::collections::HashMap;
use bevy_render::render_resource;
use bevy_render::render_resource::ShaderType;
use vstd::prelude::*;
use crate::pipeline_key::SpritePipelineKey;

verus! {

broadcast use vstd::std_specs::hash::group_hash_axioms;

/// What a binding of a bind group layout holds.
#[derive(Clone, Copy, Debug, PartialEq, Eq, Structural)]
pub enum BindingType {
    /// A uniform buffer.
    Buffer { has_dynamic_offset: bool, min_binding_size: u64 },
    /// A two-dimensional texture that is sampled as numbers with fractions.
    Texture { multisampled: bool, filterable: bool },
    /// A sampler that filters.
    Sampler,
}

/// One binding of a bind group layout.
#[derive(Clone, Copy, Debug, PartialEq, Eq, Structural)]
pub struct BindGroupLayoutEntry {
    pub binding: u32,
    /// Whether the vertex stage sees the binding.
    pub vertex: bool,
    /// Whether the fragment stage sees the binding.
    pub fragment: bool,
    pub ty: BindingType,
}

/// What a bind group layout is made from.
#[derive(Debug)]
pub struct BindGroupLayoutDescriptor {
    pub label: &'static str,
    pub entries: Vec<BindGroupLayoutEntry>,
}

/// The sprite pipeline, by the identities of its two bind group layouts.
#[derive(Clone, Copy, Debug, PartialEq, Eq, Structural)]
pub struct SpritePipeline {
    /// The layout of what is bound for a view.
    pub view_layout: u128,
    /// The layout of what is bound for a texture.
    pub material_layout: u128,
}

/// The format of one attribute of a vertex.
#[derive(Clone, Copy, Debug, PartialEq, Eq, Structural)]
pub enum VertexFormat {
    /// Two single-precision numbers.
    Float32x2,
    /// Three single-precision numbers.
    Float32x3,
    /// Four single-precision numbers.
    Float32x4,
}

/// How often a vertex buffer steps forward.
#[derive(Clone, Copy, Debug, PartialEq, Eq, Structural)]
pub enum VertexStepMode {
    Vertex,
    Instance,
}

/// One attribute of a vertex.
#[derive(Clone, Copy, Debug, PartialEq, Eq, Structural)]
pub struct VertexAttribute {
    pub format: VertexFormat,
    /// Where the attribute starts within the vertex, in bytes.
    pub offset: u64,
    pub shader_location: u32,
}

/// How a vertex buffer is read.
#[derive(Debug)]
pub struct VertexBufferLayout {
    /// The bytes from one vertex to the next.
    pub array_stride: u64,
    pub step_mode: VertexStepMode,
    pub attributes: Vec<VertexAttribute>,
}

/// One variant of the sprite pipeline. What all variants share (alpha
/// blending into the default target format, filled triangle lists without
/// culling, no depth test) is not held here.
#[derive(Debug)]
pub struct RenderPipelineDescriptor {
    pub label: &'static str,
    /// The identities of the bind group layouts, in the order of their groups.
    pub layout: Vec<u128>,
    pub vertex_entry_point: &'static str,
    pub fragment_entry_point: &'static str,
    /// The names that are defined for both shader stages.
    pub shader_defs: Vec<&'static str>,
    pub vertex_buffer: VertexBufferLayout,
    /// The multisample count.
    pub sample_count: u32,
}

impl VertexFormat {
    /// The size of an attribute of the format, in bytes.
    pub open spec fn size(self) -> nat {
        match self {
            VertexFormat::Float32x2 => 8,
            VertexFormat::Float32x3 => 12,
            VertexFormat::Float32x4 => 16,
        }
    }
}

/// The size of a vertex whose attributes have the given formats and follow
/// one another without a gap.
pub open spec fn packed_size(formats: Seq<VertexFormat>) -> nat
    decreases formats.len(),
{
    if formats.len() == 0 {
        0
    } else {
        packed_size(formats.drop_last()) + formats.last().size()
    }
}

/// The attribute at place `i` of such a vertex: it starts where the
/// attributes before it end, and its shader location is its place.
pub open spec fn packed_attribute(formats: Seq<VertexFormat>, i: int) -> VertexAttribute {
    VertexAttribute {
        format: formats[i],
        offset: packed_size(formats.take(i)) as u64,
        shader_location: i as u32,
    }
}

/// The formats of a sprite vertex: position, texture coordinates and, in the
/// coloured variant, colour.
pub open spec fn sprite_vertex_formats(colored: bool) -> Seq<VertexFormat> {
    if colored {
        seq![VertexFormat::Float32x3, VertexFormat::Float32x2, VertexFormat::Float32x4]
    } else {
        seq![VertexFormat::Float32x3, VertexFormat::Float32x2]
    }
}

/// A sprite vertex takes 20 bytes, which hold the position at offset 0 and
/// the texture coordinates at offset 12; a coloured one takes 36 bytes and
/// holds its colour at offset 20.
pub proof fn lemma_sprite_vertex_layout(colored: bool)
    ensures
        packed_size(sprite_vertex_formats(colored)) == (if colored {
            36nat
        } else {
            20nat
        }),
        packed_attribute(sprite_vertex_formats(colored), 0) == (VertexAttribute {
            format: VertexFormat::Float32x3,
            offset: 0,
            shader_location: 0,
        }),
        packed_attribute(sprite_vertex_formats(colored), 1) == (VertexAttribute {
            format: VertexFormat::Float32x2,
            offset: 12,
            shader_location: 1,
        }),
        colored ==> packed_attribute(sprite_vertex_formats(colored), 2) == (VertexAttribute {
            format: VertexFormat::Float32x4,
            offset: 20,
            shader_location: 2,
        }),
{
    let formats = sprite_vertex_formats(colored);
    reveal_with_fuel(packed_size, 4);
    assert(formats.take(0) =~= Seq::<VertexFormat>::empty());
    assert(formats.take(1) =~= seq![VertexFormat::Float32x3]);
    assert(formats.take(2) =~= seq![VertexFormat::Float32x3, VertexFormat::Float32x2]);
    assert(formats.take(1).drop_last() =~= Seq::<VertexFormat>::empty());
    assert(formats.take(2).drop_last() =~= formats.take(1));
    if colored {
        assert(formats.drop_last() =~= formats.take(2));
    } else {
        assert(formats =~= formats.take(2));
    }
}

/// Whether `descriptor` is the variant of `pipeline` for one colour mode and
/// one sample count.
pub open spec fn is_variant(
    descriptor: RenderPipelineDescriptor,
    pipeline: SpritePipeline,
    colored: bool,
    samples: int,
) -> bool {
    &&& descriptor.label@ == "sprite_pipeline"@
    &&& descriptor.layout@ =~= seq![pipeline.view_layout, pipeline.material_layout]
    &&& descriptor.vertex_entry_point@ == "vertex"@
    &&& descriptor.fragment_entry_point@ == "fragment"@
    &&& descriptor.shader_defs@.len() == (if colored {
        1nat
    } else {
        0nat
    })
    &&& colored ==> descriptor.shader_defs@[0]@ == "COLORED"@
    &&& descriptor.vertex_buffer.step_mode == VertexStepMode::Vertex
    &&& descriptor.vertex_buffer.array_stride == packed_size(
        sprite_vertex_formats(colored),
    )
    &&& descriptor.vertex_buffer.attributes@.len() == sprite_vertex_formats(
        colored,
    ).len()
    &&& forall|i: int|
        0 <= i < descriptor.vertex_buffer.attributes@.len()
            ==> #[trigger] descriptor.vertex_buffer.attributes@[i] == packed_attribute(
            sprite_vertex_formats(colored),
            i,
        )
    &&& descriptor.sample_count == samples
}

/// Whether `descriptor` is the variant of `pipeline` that `key` selects.
pub open spec fn is_specialization(
    descriptor: RenderPipelineDescriptor,
    pipeline: SpritePipeline,
    key: SpritePipelineKey,
) -> bool {
    is_variant(descriptor, pipeline, key.is_colored(), key.samples())
}

/// `VertexBufferLayout::from_vertex_formats` of bevy_render: a vertex whose
/// attributes have the given formats, in the given order, packed densely.
/// The first attribute has offset and shader location zero, each further one
/// starts where the one before it ends and has the next location, and the
/// stride is the sum of the formats' sizes.
#[verifier::external_body]
fn from_vertex_formats(step_mode: VertexStepMode, formats: &Vec<VertexFormat>) -> (layout:
    VertexBufferLayout)
    ensures
        layout.step_mode == step_mode,
        layout.array_stride == packed_size(formats@),
        layout.attributes@.len() == formats@.len(),
        forall|i: int|
            0 <= i < formats@.len() ==> #[trigger] layout.attributes@[i] == packed_attribute(
                formats@,
                i,
            ),
{
    let step = match step_mode {
        VertexStepMode::Vertex => render_resource::VertexStepMode::Vertex,
        VertexStepMode::Instance => render_resource::VertexStepMode::Instance,
    };
    let made = render_resource::VertexBufferLayout::from_vertex_formats(step, formats.iter().map(|format| match format {
        VertexFormat::Float32x2 => render_resource::VertexFormat::Float32x2,
        VertexFormat::Float32x3 => render_resource::VertexFormat::Float32x3,
        VertexFormat::Float32x4 => render_resource::VertexFormat::Float32x4,
    }));
    let attributes = formats.iter().zip(made.attributes.iter()).map(|(format, made)|
        VertexAttribute { format: *format, offset: made.offset, shader_location: made.shader_location }
    ).collect();
    VertexBufferLayout { array_stride: made.array_stride, step_mode, attributes }
}

/// `ShaderType::min_size` of bevy_render's `ViewUniform`: the least size, in
/// bytes, of the uniform data of a view. It is not zero.
#[verifier::external_body]
fn view_uniform_min_size() -> (size: u64)
    ensures
        size > 0,
{
    bevy_render::view::ViewUniform::min_size().get()
}

/// Whether `descriptor` is the layout of what is bound for a view: the
/// view's uniform data, which both shader stages see, at binding 0 with a
/// dynamic offset.
pub open spec fn is_view_layout(descriptor: BindGroupLayoutDescriptor) -> bool {
    &&& descriptor.label@ == "sprite_view_layout"@
    &&& descriptor.entries@.len() == 1
    &&& descriptor.entries@[0].binding == 0
    &&& descriptor.entries@[0].vertex
    &&& descriptor.entries@[0].fragment
    &&& descriptor.entries@[0].ty matches BindingType::Buffer { has_dynamic_offset, min_binding_size }
    &&& has_dynamic_offset
    &&& min_binding_size > 0
}

/// Whether `descriptor` is the layout of what is bound for a texture: the
/// texture at binding 0 and its sampler at binding 1, both for the fragment
/// stage alone.
pub open spec fn is_material_layout(descriptor: BindGroupLayoutDescriptor) -> bool {
    descriptor.label@ == "sprite_material_layout"@ && descriptor.entries@ =~= seq![
        BindGroupLayoutEntry {
            binding: 0,
            vertex: false,
            fragment: true,
            ty: BindingType::Texture { multisampled: false, filterable: true },
        },
        BindGroupLayoutEntry { binding: 1, vertex: false, fragment: true, ty: BindingType::Sampler },
    ]
}

impl SpritePipeline {
    /// The layouts from which the pipeline's two bind group layouts are
    /// made: first that of a view, then that of a texture.
    pub fn layouts() -> (layouts: (BindGroupLayoutDescriptor, BindGroupLayoutDescriptor))
        ensures
            is_view_layout(layouts.0),
            is_material_layout(layouts.1),
    {
        let min_binding_size: u64 = view_uniform_min_size();
        let mut view_entries: Vec<BindGroupLayoutEntry> = Vec::new();
        view_entries.push(
            BindGroupLayoutEntry {
                binding: 0,
                vertex: true,
                fragment: true,
                ty: BindingType::Buffer { has_dynamic_offset: true, min_binding_size },
            },
        );
        let view_layout = BindGroupLayoutDescriptor {
            entries: view_entries,
            label: "sprite_view_layout",
        };
        let mut material_entries: Vec<BindGroupLayoutEntry> = Vec::new();
        material_entries.push(
            BindGroupLayoutEntry {
                binding: 0,
                vertex: false,
                fragment: true,
                ty: BindingType::Texture { multisampled: false, filterable: true },
            },
        );
        material_entries.push(
            BindGroupLayoutEntry {
                binding: 1,
                vertex: false,
                fragment: true,
                ty: BindingType::Sampler,
            },
        );
        let material_layout = BindGroupLayoutDescriptor {
            entries: material_entries,
            label: "sprite_material_layout",
        };
        assert(is_material_layout(material_layout));
        (view_layout, material_layout)
    }

    /// The pipeline whose bind group layouts have the given identities.
    pub fn new(view_layout: u128, material_layout: u128) -> (pipeline: SpritePipeline)
        ensures
            pipeline.view_layout == view_layout,
            pipeline.material_layout == material_layout,
    {
        SpritePipeline { view_layout, material_layout }
    }

    /// The variant of the pipeline that `key` selects.
    ///
    /// A vertex holds a position and texture coordinates, and a colour if
    /// the key is coloured; then the name `COLORED` is defined for the
    /// shaders. The multisample count is the one that the key holds.
    pub fn specialize(&self, key: SpritePipelineKey) -> (descriptor: RenderPipelineDescriptor)
        ensures
            is_specialization(descriptor, *self, key),
    {
        let mut formats: Vec<VertexFormat> = Vec::new();
        // position
        formats.push(VertexFormat::Float32x3);
        // uv
        formats.push(VertexFormat::Float32x2);

        if key.contains(SpritePipelineKey::colored()) {
            // color
            formats.push(VertexFormat::Float32x4);
        }
        assert(formats@ =~= sprite_vertex_formats(key.is_colored()));

        let vertex_layout = from_vertex_formats(VertexStepMode::Vertex, &formats);

        let mut shader_defs: Vec<&'static str> = Vec::new();
        if key.contains(SpritePipelineKey::colored()) {
            shader_defs.push("COLORED");
        }
        let mut layout: Vec<u128> = Vec::new();
        layout.push(self.view_layout);
        layout.push(self.material_layout);

        RenderPipelineDescriptor {
            label: "sprite_pipeline",
            layout,
            vertex_entry_point: "vertex",
            fragment_entry_point: "fragment",
            shader_defs,
            vertex_buffer: vertex_layout,
            sample_count: key.msaa_samples(),
        }
    }
}

/// The identity of a pipeline in a [`PipelineCache`].
#[derive(Clone, Copy, Debug, PartialEq, Eq, Hash, Structural)]
pub struct CachedRenderPipelineId(pub usize);

/// The pipelines that were asked for, each under the place at which it
/// stands.
#[derive(Debug)]
pub struct PipelineCache {
    pub pipelines: Vec<RenderPipelineDescriptor>,
}

impl PipelineCache {
    /// A cache without pipelines.
    pub fn new() -> (cache: PipelineCache)
        ensures
            cache.pipelines@.len() == 0,
    {
        PipelineCache { pipelines: Vec::new() }
    }

    /// Adds a pipeline and returns its identity, which is its place.
    pub fn queue_render_pipeline(&mut self, descriptor: RenderPipelineDescriptor) -> (id:
        CachedRenderPipelineId)
        ensures
            id.0 == old(self).pipelines@.len(),
            final(self).pipelines@ == old(self).pipelines@.push(descriptor),
    {
        let id = CachedRenderPipelineId(self.pipelines.len());
        self.pipelines.push(descriptor);
        id
    }
}

/// Which pipeline was made for which key.
pub struct SpecializedRenderPipelines {
    cache: HashMap<u32, usize>,
}

impl View for SpecializedRenderPipelines {
    type V = Map<u32, usize>;

    closed spec fn view(&self) -> Map<u32, usize> {
        self.cache@
    }
}

/// The pipeline that a request for `key` yields when the pipelines in
/// `specialized` were made before and `queued` pipelines stand in the cache:
/// the one made for `key`, or else a new one at the cache's end.
pub open spec fn specialized_id(specialized: Map<u32, usize>, queued: nat, key: u32) -> nat {
    if specialized.contains_key(key) {
        specialized[key] as nat
    } else {
        queued
    }
}

/// What is known of the pipelines after a request for `key`.
pub open spec fn specialized_after(specialized: Map<u32, usize>, queued: nat, key: u32) -> Map<
    u32,
    usize,
> {
    if specialized.contains_key(key) {
        specialized
    } else {
        specialized.insert(key, queued as usize)
    }
}

/// How many pipelines stand in the cache after a request for `key`.
pub open spec fn queued_after(specialized: Map<u32, usize>, queued: nat, key: u32) -> nat {
    if specialized.contains_key(key) {
        queued
    } else {
        queued + 1
    }
}

impl SpecializedRenderPipelines {
    /// No pipeline was made yet.
    pub fn new() -> (pipelines: SpecializedRenderPipelines)
        ensures
            pipelines@ == (Map::<u32, usize>::empty()),
    {
        SpecializedRenderPipelines { cache: HashMap::new() }
    }

    /// The pipeline made for `key`, if there is one.
    pub fn get(&self, key: SpritePipelineKey) -> (id: Option<CachedRenderPipelineId>)
        ensures
            id is Some <==> self@.contains_key(key@),
            id matches Some(found) ==> found.0 == self@[key@],
    {
        let bits: u32 = key.bits();
        match self.cache.get(&bits) {
            Some(id) => Some(CachedRenderPipelineId(*id)),
            None => None,
        }
    }

    /// The pipeline of `specialize_pipeline` for `key`.
    ///
    /// If one was made before, it is returned and nothing changes. If not,
    /// the variant that `key` selects is added to `cache`, and its identity
    /// is kept for `key` and returned.
    pub fn specialize(
        &mut self,
        cache: &mut PipelineCache,
        specialize_pipeline: &SpritePipeline,
        key: SpritePipelineKey,
    ) -> (id: CachedRenderPipelineId)
        ensures
            id.0 == specialized_id(old(self)@, old(cache).pipelines@.len(), key@),
            final(self)@ == specialized_after(old(self)@, old(cache).pipelines@.len(), key@),
            final(cache).pipelines@.len() == queued_after(
                old(self)@,
                old(cache).pipelines@.len(),
                key@,
            ),
            final(cache).pipelines@.take(old(cache).pipelines@.len() as int) == old(
                cache,
            ).pipelines@,
            !old(self)@.contains_key(key@) ==> is_specialization(
                final(cache).pipelines@.last(),
                *specialize_pipeline,
                key,
            ),
    {
        let bits: u32 = key.bits();
        match self.cache.get(&bits) {
            Some(id) => {
                let id = CachedRenderPipelineId(*id);
                assert(cache.pipelines@.take(cache.pipelines@.len() as int) =~= cache.pipelines@);
                id
            },
            None => {
                let descriptor = specialize_pipeline.specialize(key);
                let id = cache.queue_render_pipeline(descriptor);
                self.cache.insert(bits, id.0);
                assert(cache.pipelines@.take(old(cache).pipelines@.len() as int) =~= old(
                    cache,
                ).pipelines@);
                id
            },
        }
    }
}

/// Asking twice for the same key yields the same pipeline, and the second
/// request adds nothing: neither to what is known of the pipelines nor to
/// the cache.
pub proof fn lemma_specialize_idempotent(specialized: Map<u32, usize>, queued: nat, key: u32)
    requires
        queued <= usize::MAX,
    ensures
        specialized_id(
            specialized_after(specialized, queued, key),
            queued_after(specialized, queued, key),
            key,
        ) == specialized_id(specialized, queued, key),
        specialized_after(
            specialized_after(specialized, queued, key),
            queued_after(specialized, queued, key),
            key,
        ) == specialized_after(specialized, queued, key),
        queued_after(
            specialized_after(specialized, queued, key),
            queued_after(specialized, queued, key),
            key,
        ) == queued_after(specialized, queued, key),
{
}

} // verus!
