//! Preparation: sorted sprites become quads in two vertex buffers, and runs
//! of sprites that share a texture and a colour mode become batches.

use std::ops::Range;
use vstd::prelude::*;
use crate::extract::{ExtractedSprite, ExtractedSprites};
use crate::handle::HandleId;
use crate::handle_map::HandleMap;
use crate::math::{Scalar, Vec2};
use crate::sort::{is_sorted, sort_unstable_by_depth};

verus! {

/// Vertices that one sprite takes in a vertex buffer: two triangles.
pub const VERTICES_PER_SPRITE: u32 = 6;

/// A texture that is ready on the GPU.
#[derive(Clone, Copy, Debug, PartialEq, Eq, Hash, Structural)]
pub struct GpuImage {
    /// Width and height, in pixels.
    pub size: Vec2,
    /// The identity of the texture's view.
    pub texture_view: u128,
    /// The identity of the texture's sampler.
    pub sampler: u128,
}

/// A run of sprites that are drawn by one call.
#[derive(Debug, PartialEq, Eq)]
pub struct SpriteBatch {
    /// The vertices of the run, as places in its vertex buffer.
    pub range: Range<u32>,
    /// The texture of the run's sprites.
    pub image_handle_id: HandleId,
    /// Whether `range` lies in the buffer of coloured vertices.
    pub colored: bool,
    /// The depth of the sprite that was written last.
    pub z_order: Scalar,
}

impl Clone for SpriteBatch {
    fn clone(&self) -> (batch: Self)
        ensures
            batch == *self,
    {
        SpriteBatch {
            range: self.range.start..self.range.end,
            image_handle_id: self.image_handle_id,
            colored: self.colored,
            z_order: self.z_order,
        }
    }
}

/// One sprite's share of a vertex buffer: what its six vertices are made of.
#[derive(Clone, Copy, Debug, PartialEq, Eq)]
pub struct SpriteQuad {
    pub sprite: ExtractedSprite,
    /// The size of the sprite's texture.
    pub image_size: Vec2,
}

/// The binding of a view's uniform buffer.
#[derive(Clone, Copy, Debug, PartialEq, Eq, Hash, Structural)]
pub struct BufferBinding {
    pub buffer: u128,
    pub offset: u64,
    pub size: Option<u64>,
}

/// What the sprite renderer keeps from one stage to the next.
#[derive(Debug)]
pub struct SpriteMeta {
    /// The buffer of vertices without a colour, a quad for every six.
    pub quads: Vec<SpriteQuad>,
    /// The buffer of vertices with a colour, a quad for every six.
    pub colored_quads: Vec<SpriteQuad>,
    /// What is bound for the view, once a view's uniforms were there.
    pub view_bind_group: Option<BufferBinding>,
}

impl Default for SpriteMeta {
    fn default() -> (meta: Self)
        ensures
            meta.quads@.len() == 0,
            meta.colored_quads@.len() == 0,
            meta.view_bind_group is None,
    {
        SpriteMeta { quads: Vec::new(), colored_quads: Vec::new(), view_bind_group: None }
    }
}

impl ExtractedSprite {
    /// Whether the sprite's vertices carry a colour: they do unless the
    /// sprite is opaque white.
    pub open spec fn is_colored(self) -> bool {
        !self.color.is_white()
    }

    /// Whether the sprite can share a batch with `other`.
    pub open spec fn same_batch(self, other: ExtractedSprite) -> bool {
        self.image_handle_id == other.image_handle_id && self.is_colored() == other.is_colored()
    }
}

/// The test by which sprites of one colour mode are picked.
pub open spec fn of_kind(colored: bool) -> spec_fn(ExtractedSprite) -> bool {
    |sprite: ExtractedSprite| sprite.is_colored() == colored
}

/// The test by which sprites whose texture is ready are picked.
pub open spec fn is_ready(images: Map<HandleId, GpuImage>) -> spec_fn(ExtractedSprite) -> bool {
    |sprite: ExtractedSprite| images.contains_key(sprite.image_handle_id)
}

/// The sprites that are drawn: those whose texture is ready, in their order.
pub open spec fn ready_sprites(
    sprites: Seq<ExtractedSprite>,
    images: Map<HandleId, GpuImage>,
) -> Seq<ExtractedSprite> {
    sprites.filter(is_ready(images))
}

/// How many vertices of one colour mode the sprites take.
pub open spec fn vertex_count(sprites: Seq<ExtractedSprite>, colored: bool) -> nat {
    6 * sprites.filter(of_kind(colored)).len()
}

/// The quads of one colour mode that the sprites give, in their order.
pub open spec fn quads_of(
    sprites: Seq<ExtractedSprite>,
    images: Map<HandleId, GpuImage>,
    colored: bool,
) -> Seq<SpriteQuad> {
    sprites.filter(of_kind(colored)).map_values(
        |sprite: ExtractedSprite|
            SpriteQuad { sprite, image_size: images[sprite.image_handle_id].size },
    )
}

/// The batches of a sequence of sprites that are all drawn.
///
/// The first sprite opens a batch. Each further sprite joins the batch of
/// the sprite before it if it shares that sprite's texture and colour mode,
/// and opens a new batch if it does not. A batch's range starts where the
/// vertices of its first sprite start and ends where those of its last
/// sprite end, and its depth is that of its last sprite.
pub open spec fn batches_of(sprites: Seq<ExtractedSprite>) -> Seq<SpriteBatch>
    decreases sprites.len(),
{
    if sprites.len() == 0 {
        Seq::empty()
    } else {
        let before = sprites.drop_last();
        let last = sprites.last();
        let earlier = batches_of(before);
        let end = vertex_count(sprites, last.is_colored());
        if before.len() > 0 && before.last().same_batch(last) {
            earlier.drop_last().push(
                SpriteBatch {
                    range: earlier.last().range.start..(end as u32),
                    image_handle_id: last.image_handle_id,
                    colored: last.is_colored(),
                    z_order: last.depth(),
                },
            )
        } else {
            earlier.push(
                SpriteBatch {
                    range: ((end - 6) as u32)..(end as u32),
                    image_handle_id: last.image_handle_id,
                    colored: last.is_colored(),
                    z_order: last.depth(),
                },
            )
        }
    }
}

/// What preparation leaves of a sequence of sprites, in the order given:
/// the batches and the two vertex buffers.
pub open spec fn prepared(
    sprites: Seq<ExtractedSprite>,
    images: Map<HandleId, GpuImage>,
    batches: Seq<SpriteBatch>,
    quads: Seq<SpriteQuad>,
    colored_quads: Seq<SpriteQuad>,
) -> bool {
    &&& batches == batches_of(ready_sprites(sprites, images))
    &&& quads == quads_of(ready_sprites(sprites, images), images, false)
    &&& colored_quads == quads_of(ready_sprites(sprites, images), images, true)
}

proof fn lemma_ready_step(sprites: Seq<ExtractedSprite>, images: Map<HandleId, GpuImage>, i: int)
    requires
        0 <= i < sprites.len(),
    ensures
        ready_sprites(sprites.take(i + 1), images) == if images.contains_key(
            sprites[i].image_handle_id,
        ) {
            ready_sprites(sprites.take(i), images).push(sprites[i])
        } else {
            ready_sprites(sprites.take(i), images)
        },
{
    assert(sprites.take(i + 1) =~= sprites.take(i).push(sprites[i]));
    sprites.take(i).lemma_filter_push(sprites[i], is_ready(images));
}

proof fn lemma_push_step(
    ready: Seq<ExtractedSprite>,
    sprite: ExtractedSprite,
    images: Map<HandleId, GpuImage>,
    colored: bool,
)
    ensures
        vertex_count(ready.push(sprite), colored) == vertex_count(ready, colored) + if sprite.is_colored()
            == colored {
            6nat
        } else {
            0nat
        },
        quads_of(ready.push(sprite), images, colored) == if sprite.is_colored() == colored {
            quads_of(ready, images, colored).push(
                SpriteQuad { sprite, image_size: images[sprite.image_handle_id].size },
            )
        } else {
            quads_of(ready, images, colored)
        },
        vertex_count(ready, colored) <= 6 * ready.len(),
{
    ready.lemma_filter_push(sprite, of_kind(colored));
    ready.lemma_filter_len(of_kind(colored));
    let make = |sprite: ExtractedSprite|
        SpriteQuad { sprite, image_size: images[sprite.image_handle_id].size };
    if sprite.is_colored() == colored {
        assert(ready.filter(of_kind(colored)).push(sprite).map_values(make) =~= ready.filter(
            of_kind(colored),
        ).map_values(make).push(make(sprite)));
    }
}

/// Each buffer holds one quad for every six vertices that are counted for
/// its colour mode.
pub proof fn lemma_buffer_lengths(
    sprites: Seq<ExtractedSprite>,
    images: Map<HandleId, GpuImage>,
    colored: bool,
)
    ensures
        vertex_count(sprites, colored) == 6 * quads_of(sprites, images, colored).len(),
{
}

/// Turns sprites into quads and batches, in the order in which they stand.
///
/// A sprite whose texture is not ready is left out. Every other sprite adds
/// a quad to the buffer of its colour mode, and the batches are those of the
/// sprites that were not left out.
pub fn batch_sprites(
    sprite_meta: &mut SpriteMeta,
    gpu_images: &HandleMap<GpuImage>,
    sprites: &Vec<ExtractedSprite>,
) -> (batches: Vec<SpriteBatch>)
    requires
        sprites.len() * 6 <= u32::MAX,
    ensures
        prepared(
            sprites@,
            gpu_images@,
            batches@,
            final(sprite_meta).quads@,
            final(sprite_meta).colored_quads@,
        ),
        final(sprite_meta).view_bind_group == old(sprite_meta).view_bind_group,
{
    sprite_meta.quads.clear();
    sprite_meta.colored_quads.clear();
    let mut batches: Vec<SpriteBatch> = Vec::new();

    // Starting values that are replaced when the first batch opens
    let mut open: bool = false;
    let mut current_batch_handle: HandleId = HandleId::Id(0, u64::MAX);
    let mut current_batch_colored: bool = false;
    let mut current_image_size: Vec2 = Vec2::zero();
    let mut z_order: Scalar = Scalar::zero();
    let mut start: u32 = 0;

    // Vertex buffer indices
    let mut white_end: u32 = 0;
    let mut colored_end: u32 = 0;

    let ghost images = gpu_images@;
    let ghost all = sprites@;
    let mut i: usize = 0;
    while i < sprites.len()
        invariant
            i <= sprites.len(),
            sprites.len() * 6 <= u32::MAX,
            all == sprites@,
            images == gpu_images@,
            sprite_meta.view_bind_group == old(sprite_meta).view_bind_group,
            ready_sprites(all.take(i as int), images).len() <= i,
            white_end == vertex_count(ready_sprites(all.take(i as int), images), false),
            colored_end == vertex_count(ready_sprites(all.take(i as int), images), true),
            sprite_meta.quads@ == quads_of(ready_sprites(all.take(i as int), images), images, false),
            sprite_meta.colored_quads@ == quads_of(
                ready_sprites(all.take(i as int), images),
                images,
                true,
            ),
            open <==> ready_sprites(all.take(i as int), images).len() > 0,
            !open ==> batches@.len() == 0,
            open ==> {
                &&& batches_of(ready_sprites(all.take(i as int), images)) == batches@.push(
                    SpriteBatch {
                        range: start..(if current_batch_colored {
                            colored_end
                        } else {
                            white_end
                        }),
                        image_handle_id: current_batch_handle,
                        colored: current_batch_colored,
                        z_order,
                    },
                )
                &&& ready_sprites(all.take(i as int), images).last().image_handle_id
                    == current_batch_handle
                &&& ready_sprites(all.take(i as int), images).last().is_colored()
                    == current_batch_colored
                &&& images.contains_key(current_batch_handle)
                &&& current_image_size == images[current_batch_handle].size
            },
        decreases sprites.len() - i,
    {
        let extracted_sprite = sprites[i];
        let colored = extracted_sprite.color.is_colored();
        let ghost ready = ready_sprites(all.take(i as int), images);
        proof {
            lemma_ready_step(all, images, i as int);
            lemma_push_step(ready, extracted_sprite, images, false);
            lemma_push_step(ready, extracted_sprite, images, true);
            assert(ready.push(extracted_sprite).drop_last() =~= ready);
        }
        i += 1;
        if !open || extracted_sprite.image_handle_id != current_batch_handle || colored
            != current_batch_colored {
            match gpu_images.get(&extracted_sprite.image_handle_id) {
                Some(gpu_image) => {
                    if open {
                        let end: u32 = if current_batch_colored {
                            colored_end
                        } else {
                            white_end
                        };
                        batches.push(
                            SpriteBatch {
                                range: start..end,
                                image_handle_id: current_batch_handle,
                                colored: current_batch_colored,
                                z_order,
                            },
                        );
                    }
                    current_image_size = gpu_image.size;
                    current_batch_handle = extracted_sprite.image_handle_id;
                    current_batch_colored = colored;
                    start = if colored {
                        colored_end
                    } else {
                        white_end
                    };
                    open = true;
                },
                None => {
                    // We skip sprites whose texture is not ready
                    continue ;
                },
            }
        } else {
            proof {
                let earlier = batches_of(ready);
                assert(earlier.drop_last() =~= batches@);
            }
        }
        let quad = SpriteQuad { sprite: extracted_sprite, image_size: current_image_size };
        if colored {
            sprite_meta.colored_quads.push(quad);
            colored_end += VERTICES_PER_SPRITE;
        } else {
            sprite_meta.quads.push(quad);
            white_end += VERTICES_PER_SPRITE;
        }
        z_order = extracted_sprite.transform.translation.z;
        proof {
            let ready_now = ready.push(extracted_sprite);
            let current = SpriteBatch {
                range: start..(if current_batch_colored {
                    colored_end
                } else {
                    white_end
                }),
                image_handle_id: current_batch_handle,
                colored: current_batch_colored,
                z_order,
            };
            if ready.len() == 0 {
                assert(batches_of(ready) =~= Seq::empty());
                assert(batches_of(ready_now) =~= Seq::empty().push(current));
            } else {
                assert(batches_of(ready_now) =~= batches@.push(current));
            }
        }
    }
    assert(all.take(i as int) =~= all);
    assert(!open ==> batches@ =~= batches_of(ready_sprites(all, images)));
    // if a batch is open, there is one last batch to process
    if open {
        let end: u32 = if current_batch_colored {
            colored_end
        } else {
            white_end
        };
        batches.push(
            SpriteBatch {
                range: start..end,
                image_handle_id: current_batch_handle,
                colored: current_batch_colored,
                z_order,
            },
        );
    }
    batches
}

/// Sorts the sprites back to front, turns them into quads and batches, and
/// leaves the list of sprites empty.
///
/// The order of sprites that share depth and texture is not fixed, so the
/// result is that of [`batch_sprites`] on one of the sorted orders.
pub fn prepare_sprites(
    sprite_meta: &mut SpriteMeta,
    gpu_images: &HandleMap<GpuImage>,
    extracted_sprites: &mut ExtractedSprites,
) -> (batches: Vec<SpriteBatch>)
    requires
        old(extracted_sprites).sprites.len() * 6 <= u32::MAX,
    ensures
        final(extracted_sprites).sprites@.len() == 0,
        final(sprite_meta).view_bind_group == old(sprite_meta).view_bind_group,
        exists|sorted: Seq<ExtractedSprite>|
            {
                &&& is_sorted(sorted)
                &&& sorted.to_multiset() == old(extracted_sprites).sprites@.to_multiset()
                &&& #[trigger] prepared(
                    sorted,
                    gpu_images@,
                    batches@,
                    final(sprite_meta).quads@,
                    final(sprite_meta).colored_quads@,
                )
            },
{
    // Sort sprites by z for correct transparency and then by handle to improve batching
    sort_unstable_by_depth(&mut extracted_sprites.sprites);
    proof {
        old(extracted_sprites).sprites@.to_multiset_ensures();
        extracted_sprites.sprites@.to_multiset_ensures();
    }
    let batches = batch_sprites(sprite_meta, gpu_images, &extracted_sprites.sprites);
    let ghost sorted = extracted_sprites.sprites@;
    extracted_sprites.sprites.clear();
    assert(prepared(
        sorted,
        gpu_images@,
        batches@,
        sprite_meta.quads@,
        sprite_meta.colored_quads@,
    ));
    batches
}

} // verus!
