//! Extraction: from a snapshot of the scene to a flat list of sprite records.

use vstd::prelude::*;
use copyless::VecHelper;
use crate::color::Color;
use crate::handle::HandleId;
use crate::handle_map::HandleMap;
use crate::math::{GlobalTransform, Rect, Vec2};

verus! {

/// What the renderer needs to know of one sprite, for one frame.
#[derive(Clone, Copy, Debug, PartialEq, Eq)]
pub struct ExtractedSprite {
    pub transform: GlobalTransform,
    pub color: Color,
    /// Select an area of the texture
    pub rect: Option<Rect>,
    /// Change the on-screen size of the sprite
    pub custom_size: Option<Vec2>,
    /// The texture of this sprite
    pub image_handle_id: HandleId,
    pub flip_x: bool,
    pub flip_y: bool,
    pub anchor: Vec2,
}

/// The sprite records of one frame, in the order in which they were found.
#[derive(Debug)]
pub struct ExtractedSprites {
    pub sprites: Vec<ExtractedSprite>,
}

impl Default for ExtractedSprites {
    fn default() -> (extracted: Self)
        ensures
            extracted.sprites@.len() == 0,
    {
        ExtractedSprites { sprites: Vec::new() }
    }
}

/// What happened to an asset.
#[derive(Clone, Copy, Debug, PartialEq, Eq, Structural)]
pub enum AssetEvent {
    Created { handle: HandleId },
    Modified { handle: HandleId },
    Removed { handle: HandleId },
}

/// What happened to the textures since the last frame.
#[derive(Debug)]
pub struct SpriteAssetEvents {
    pub images: Vec<AssetEvent>,
}

impl Default for SpriteAssetEvents {
    fn default() -> (events: Self)
        ensures
            events.images@.len() == 0,
    {
        SpriteAssetEvents { images: Vec::new() }
    }
}

/// How a sprite looks, apart from its texture.
#[derive(Clone, Copy, Debug, PartialEq, Eq)]
pub struct Sprite {
    pub color: Color,
    pub flip_x: bool,
    pub flip_y: bool,
    pub custom_size: Option<Vec2>,
    /// Where in the sprite its position lies, the centre being zero.
    pub anchor: Vec2,
}

/// How a sprite cut out of an atlas looks, and which cut it is.
#[derive(Clone, Copy, Debug, PartialEq, Eq)]
pub struct TextureAtlasSprite {
    pub color: Color,
    /// Which of the atlas's rectangles the sprite shows.
    pub index: usize,
    pub flip_x: bool,
    pub flip_y: bool,
    pub custom_size: Option<Vec2>,
    pub anchor: Vec2,
}

/// A texture and the rectangles into which it is cut.
#[derive(Debug)]
pub struct TextureAtlas {
    pub texture: HandleId,
    pub textures: Vec<Rect>,
}

/// One entity with a plain sprite.
#[derive(Clone, Copy, Debug, PartialEq, Eq)]
pub struct SpriteItem {
    pub is_visible: bool,
    pub sprite: Sprite,
    pub transform: GlobalTransform,
    pub image: HandleId,
}

/// One entity with a sprite cut out of an atlas.
#[derive(Clone, Copy, Debug, PartialEq, Eq)]
pub struct AtlasSpriteItem {
    pub is_visible: bool,
    pub sprite: TextureAtlasSprite,
    pub transform: GlobalTransform,
    pub atlas: HandleId,
}

impl SpriteItem {
    /// The record of the sprite, which shows its whole texture. An entity
    /// that is not visible has none.
    pub open spec fn extracted(self) -> Option<ExtractedSprite> {
        if self.is_visible {
            Some(
                ExtractedSprite {
                    transform: self.transform,
                    color: self.sprite.color,
                    rect: None,
                    custom_size: self.sprite.custom_size,
                    image_handle_id: self.image,
                    flip_x: self.sprite.flip_x,
                    flip_y: self.sprite.flip_y,
                    anchor: self.sprite.anchor,
                },
            )
        } else {
            None
        }
    }
}

impl AtlasSpriteItem {
    /// Whether the atlas is there and the sprite is to be shown.
    pub open spec fn resolvable(self, atlases: Map<HandleId, TextureAtlas>) -> bool {
        self.is_visible && atlases.contains_key(self.atlas)
    }

    /// The record of the sprite, which shows the atlas's texture within the
    /// rectangle that the sprite's index selects. An entity that is not
    /// visible has none, nor has one whose atlas is missing.
    pub open spec fn extracted(self, atlases: Map<HandleId, TextureAtlas>) -> Option<
        ExtractedSprite,
    > {
        if self.resolvable(atlases) {
            Some(
                ExtractedSprite {
                    transform: self.transform,
                    color: self.sprite.color,
                    rect: Some(atlases[self.atlas].textures@[self.sprite.index as int]),
                    custom_size: self.sprite.custom_size,
                    image_handle_id: atlases[self.atlas].texture,
                    flip_x: self.sprite.flip_x,
                    flip_y: self.sprite.flip_y,
                    anchor: self.sprite.anchor,
                },
            )
        } else {
            None
        }
    }
}

/// The records of the plain sprites, in their order.
pub open spec fn plain_records(sprites: Seq<SpriteItem>) -> Seq<ExtractedSprite> {
    sprites.filter_map(|item: SpriteItem| item.extracted())
}

/// The records of the atlas sprites, in their order.
pub open spec fn atlas_records(
    sprites: Seq<AtlasSpriteItem>,
    atlases: Map<HandleId, TextureAtlas>,
) -> Seq<ExtractedSprite> {
    sprites.filter_map(|item: AtlasSpriteItem| item.extracted(atlases))
}

/// Whether every atlas sprite that is to be shown selects a rectangle that
/// its atlas has.
pub open spec fn indices_in_range(
    sprites: Seq<AtlasSpriteItem>,
    atlases: Map<HandleId, TextureAtlas>,
) -> bool {
    forall|i: int|
        0 <= i < sprites.len() && (#[trigger] sprites[i]).resolvable(atlases)
            ==> sprites[i].sprite.index < atlases[sprites[i].atlas].textures@.len()
}

/// `VecHelper::alloc` and then `VecAllocation::init`, of the copyless crate:
/// the vector grows by one place at its end, and `sprite` is written there.
#[verifier::external_body]
fn alloc_init(sprites: &mut Vec<ExtractedSprite>, sprite: ExtractedSprite)
    ensures
        final(sprites)@ == old(sprites)@.push(sprite),
{
    sprites.alloc().init(sprite);
}

/// Copies this frame's texture events, in their order, in place of those of
/// the frame before.
pub fn extract_sprite_events(events: &mut SpriteAssetEvents, image_events: &Vec<AssetEvent>)
    ensures
        final(events).images@ == image_events@,
{
    events.images.clear();
    let mut i: usize = 0;
    while i < image_events.len()
        invariant
            i <= image_events.len(),
            events.images@ == image_events@.take(i as int),
        decreases image_events.len() - i,
    {
        let copied = match image_events[i] {
            AssetEvent::Created { handle } => AssetEvent::Created { handle },
            AssetEvent::Modified { handle } => AssetEvent::Modified { handle },
            AssetEvent::Removed { handle } => AssetEvent::Removed { handle },
        };
        events.images.push(copied);
        i += 1;
        assert(events.images@ =~= image_events@.take(i as int));
    }
    assert(image_events@.take(i as int) =~= image_events@);
}

/// Replaces the records in `extracted_sprites` by those of this frame: one
/// for every visible plain sprite, then one for every visible atlas sprite
/// whose atlas is there.
pub fn extract_sprites(
    extracted_sprites: &mut ExtractedSprites,
    texture_atlases: &HandleMap<TextureAtlas>,
    sprite_query: &Vec<SpriteItem>,
    atlas_query: &Vec<AtlasSpriteItem>,
)
    requires
        indices_in_range(atlas_query@, texture_atlases@),
    ensures
        final(extracted_sprites).sprites@ == plain_records(sprite_query@)
            + atlas_records(atlas_query@, texture_atlases@),
{
    extracted_sprites.sprites.clear();
    let mut i: usize = 0;
    while i < sprite_query.len()
        invariant
            i <= sprite_query.len(),
            extracted_sprites.sprites@ == plain_records(sprite_query@.take(i as int)),
        decreases sprite_query.len() - i,
    {
        let item = &sprite_query[i];
        proof {
            sprite_query@.lemma_filter_map_take_succ(|item: SpriteItem| item.extracted(), i as int);
        }
        if item.is_visible {
            alloc_init(
                &mut extracted_sprites.sprites,
                ExtractedSprite {
                    color: item.sprite.color,
                    transform: item.transform,
                    rect: None,
                    custom_size: item.sprite.custom_size,
                    flip_x: item.sprite.flip_x,
                    flip_y: item.sprite.flip_y,
                    image_handle_id: item.image,
                    anchor: item.sprite.anchor,
                },
            );
        }
        i += 1;
    }
    assert(sprite_query@.take(i as int) =~= sprite_query@);
    let ghost plain = extracted_sprites.sprites@;
    let ghost atlases = texture_atlases@;
    let mut j: usize = 0;
    while j < atlas_query.len()
        invariant
            j <= atlas_query.len(),
            atlases == texture_atlases@,
            indices_in_range(atlas_query@, atlases),
            extracted_sprites.sprites@ == plain + atlas_records(
                atlas_query@.take(j as int),
                atlases,
            ),
        decreases atlas_query.len() - j,
    {
        let item = &atlas_query[j];
        proof {
            atlas_query@.lemma_filter_map_take_succ(
                |item: AtlasSpriteItem| item.extracted(atlases),
                j as int,
            );
        }
        if item.is_visible {
            if let Some(texture_atlas) = texture_atlases.get(&item.atlas) {
                assert(atlas_query@[j as int].resolvable(atlases));
                let rect = Some(texture_atlas.textures[item.sprite.index]);
                alloc_init(
                    &mut extracted_sprites.sprites,
                    ExtractedSprite {
                        color: item.sprite.color,
                        transform: item.transform,
                        rect,
                        custom_size: item.sprite.custom_size,
                        flip_x: item.sprite.flip_x,
                        flip_y: item.sprite.flip_y,
                        image_handle_id: texture_atlas.texture,
                        anchor: item.sprite.anchor,
                    },
                );
            }
        }
        j += 1;
        assert(extracted_sprites.sprites@ =~= plain + atlas_records(
            atlas_query@.take(j as int),
            atlases,
        ));
    }
    assert(atlas_query@.take(j as int) =~= atlas_query@);
}

} // verus!
