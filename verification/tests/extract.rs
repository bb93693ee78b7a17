use sprite_render::color::Color;
use sprite_render::extract::{
    extract_sprite_events, extract_sprites, AssetEvent, AtlasSpriteItem, ExtractedSprites,
    Sprite, SpriteAssetEvents, SpriteItem, TextureAtlas, TextureAtlasSprite,
};
use sprite_render::handle::HandleId;
use sprite_render::handle_map::HandleMap;
use sprite_render::math::{GlobalTransform, Rect, Scalar, Vec2, Vec3};

fn number(value: f32) -> Scalar {
    Scalar::from_bits(value.to_bits())
}

fn point(x: f32, y: f32) -> Vec2 {
    Vec2::new(number(x), number(y))
}

fn pose(z: f32) -> GlobalTransform {
    GlobalTransform {
        x_axis: Vec3 { x: number(1.0), y: number(0.0), z: number(0.0) },
        y_axis: Vec3 { x: number(0.0), y: number(1.0), z: number(0.0) },
        z_axis: Vec3 { x: number(0.0), y: number(0.0), z: number(1.0) },
        translation: Vec3 { x: number(2.0), y: number(3.0), z: number(z) },
    }
}

fn plain(is_visible: bool, z: f32, image: u64) -> SpriteItem {
    SpriteItem {
        is_visible,
        sprite: Sprite {
            color: Color::white(),
            flip_x: true,
            flip_y: false,
            custom_size: Some(point(4.0, 5.0)),
            anchor: point(-0.5, 0.5),
        },
        transform: pose(z),
        image: HandleId::Id(1, image),
    }
}

fn cut(is_visible: bool, z: f32, atlas: u64, index: usize) -> AtlasSpriteItem {
    AtlasSpriteItem {
        is_visible,
        sprite: TextureAtlasSprite {
            color: Color::white(),
            index,
            flip_x: false,
            flip_y: true,
            custom_size: None,
            anchor: point(0.0, 0.0),
        },
        transform: pose(z),
        atlas: HandleId::Id(2, atlas),
    }
}

fn atlases() -> HandleMap<TextureAtlas> {
    let mut atlases = HandleMap::new();
    atlases.insert(
        HandleId::Id(2, 10),
        TextureAtlas {
            texture: HandleId::Id(1, 77),
            textures: vec![
                Rect { min: point(0.0, 0.0), max: point(8.0, 8.0) },
                Rect { min: point(8.0, 0.0), max: point(16.0, 8.0) },
            ],
        },
    );
    atlases
}

#[test]
fn visible_sprites_are_extracted_plain_ones_first() {
    let mut extracted = ExtractedSprites::default();
    extract_sprites(
        &mut extracted,
        &atlases(),
        &vec![plain(true, 1.0, 5), plain(false, 2.0, 6), plain(true, 3.0, 7)],
        &vec![cut(true, 4.0, 10, 1), cut(false, 5.0, 10, 0), cut(true, 6.0, 10, 0)],
    );
    let sprites = &extracted.sprites;
    assert_eq!(sprites.len(), 4);
    assert_eq!(sprites[0].image_handle_id, HandleId::Id(1, 5));
    assert_eq!(sprites[0].rect, None);
    assert_eq!(sprites[0].custom_size, Some(point(4.0, 5.0)));
    assert_eq!(sprites[0].anchor, point(-0.5, 0.5));
    assert!(sprites[0].flip_x && !sprites[0].flip_y);
    assert_eq!(sprites[0].transform, pose(1.0));
    assert_eq!(sprites[1].image_handle_id, HandleId::Id(1, 7));
    assert_eq!(sprites[2].image_handle_id, HandleId::Id(1, 77));
    assert_eq!(sprites[2].rect, Some(Rect { min: point(8.0, 0.0), max: point(16.0, 8.0) }));
    assert_eq!(sprites[2].transform, pose(4.0));
    assert!(!sprites[2].flip_x && sprites[2].flip_y);
    assert_eq!(sprites[3].rect, Some(Rect { min: point(0.0, 0.0), max: point(8.0, 8.0) }));
    assert_eq!(sprites[3].transform, pose(6.0));
}

#[test]
fn atlas_sprite_without_atlas_is_skipped() {
    let mut extracted = ExtractedSprites::default();
    extract_sprites(
        &mut extracted,
        &atlases(),
        &vec![],
        &vec![cut(true, 1.0, 11, 0), cut(true, 2.0, 10, 0), cut(true, 3.0, 12, 99)],
    );
    assert_eq!(extracted.sprites.len(), 1);
    assert_eq!(extracted.sprites[0].transform, pose(2.0));
}

#[test]
fn extraction_replaces_the_records_of_the_frame_before() {
    let mut extracted = ExtractedSprites::default();
    extract_sprites(&mut extracted, &atlases(), &vec![plain(true, 1.0, 5)], &vec![]);
    extract_sprites(&mut extracted, &atlases(), &vec![plain(true, 2.0, 6)], &vec![]);
    assert_eq!(extracted.sprites.len(), 1);
    assert_eq!(extracted.sprites[0].image_handle_id, HandleId::Id(1, 6));
}

#[test]
fn events_are_copied_in_order() {
    let incoming = vec![
        AssetEvent::Created { handle: HandleId::Id(1, 1) },
        AssetEvent::Modified { handle: HandleId::Id(1, 2) },
        AssetEvent::Removed { handle: HandleId::AssetPathId(3, 4) },
    ];
    let mut events = SpriteAssetEvents { images: vec![AssetEvent::Removed { handle: HandleId::Id(9, 9) }] };
    extract_sprite_events(&mut events, &incoming);
    assert_eq!(events.images, incoming);
    extract_sprite_events(&mut events, &vec![]);
    assert!(events.images.is_empty());
}

#[test]
fn handle_map_keeps_what_was_inserted_last() {
    let mut map: HandleMap<u32> = HandleMap::new();
    let a = HandleId::Id(1, 1);
    let b = HandleId::Id(1, 2);
    let c = HandleId::AssetPathId(1, 1);
    assert_eq!(map.get(&a), None);
    map.insert(a, 10);
    map.insert(b, 20);
    map.insert(c, 30);
    map.insert(a, 11);
    assert_eq!(map.get(&a), Some(&11));
    assert_eq!(map.get(&b), Some(&20));
    assert_eq!(map.get(&c), Some(&30));
    assert!(map.contains_key(&c));
    assert!(!map.contains_key(&HandleId::AssetPathId(1, 2)));
}

#[test]
fn handle_map_forgets_what_was_removed() {
    let mut map: HandleMap<u32> = HandleMap::new();
    let handles: Vec<HandleId> = (0..6).map(|n| HandleId::Id(3, n)).collect();
    for (n, handle) in handles.iter().enumerate() {
        map.insert(*handle, n as u32);
    }
    map.remove(&handles[1]);
    map.remove(&handles[5]);
    map.remove(&handles[1]);
    map.remove(&HandleId::Id(4, 0));
    for (n, handle) in handles.iter().enumerate() {
        if n == 1 || n == 5 {
            assert_eq!(map.get(handle), None);
        } else {
            assert_eq!(map.get(handle), Some(&(n as u32)));
        }
    }
    map.insert(handles[1], 100);
    assert_eq!(map.get(&handles[1]), Some(&100));
    assert_eq!(map.get(&handles[4]), Some(&4));
    for handle in &handles {
        map.remove(handle);
        assert!(!map.contains_key(handle));
    }
}

#[test]
fn identities_of_different_kinds_do_not_collide() {
    let mut map: HandleMap<u32> = HandleMap::new();
    map.insert(HandleId::Id(5, 6), 1);
    map.insert(HandleId::AssetPathId(5, 6), 2);
    assert_eq!(map.get(&HandleId::Id(5, 6)), Some(&1));
    assert_eq!(map.get(&HandleId::AssetPathId(5, 6)), Some(&2));
    assert_eq!(HandleId::Id(5, 6).key(), (0, 5, 6));
    assert_eq!(HandleId::AssetPathId(5, 6).key(), (1, 5, 6));
}
