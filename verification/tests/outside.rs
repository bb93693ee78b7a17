use sprite_render::color::Color;
use sprite_render::handle::HandleId;
use sprite_render::math::Scalar;

fn bits(value: f32) -> Scalar {
    Scalar::from_bits(value.to_bits())
}

fn from_engine_color(color: bevy_render::color::Color) -> Color {
    match color {
        bevy_render::color::Color::Rgba { red, green, blue, alpha } => {
            Color::Rgba { red: bits(red), green: bits(green), blue: bits(blue), alpha: bits(alpha) }
        }
        bevy_render::color::Color::RgbaLinear { red, green, blue, alpha } => Color::RgbaLinear {
            red: bits(red),
            green: bits(green),
            blue: bits(blue),
            alpha: bits(alpha),
        },
        bevy_render::color::Color::Hsla { hue, saturation, lightness, alpha } => Color::Hsla {
            hue: bits(hue),
            saturation: bits(saturation),
            lightness: bits(lightness),
            alpha: bits(alpha),
        },
    }
}

fn from_engine_handle(uuid: u128, id: u64) -> (bevy_asset::HandleId, HandleId) {
    (bevy_asset::HandleId::Id(bevy_utils::Uuid::from_u128(uuid), id), HandleId::Id(uuid, id))
}

#[test]
fn colour_mode_agrees_with_the_engine() {
    let colors = [
        bevy_render::color::Color::WHITE,
        bevy_render::color::Color::rgb(1.0, 1.0, 1.0),
        bevy_render::color::Color::rgba(1.0, 1.0, 1.0, 0.999),
        bevy_render::color::Color::RED,
        bevy_render::color::Color::NONE,
        bevy_render::color::Color::rgb_linear(1.0, 1.0, 1.0),
        bevy_render::color::Color::hsl(0.0, 0.0, 1.0),
        bevy_render::color::Color::rgb(f32::NAN, 1.0, 1.0),
    ];
    for color in colors {
        assert_eq!(
            from_engine_color(color).is_colored(),
            color != bevy_render::color::Color::WHITE
        );
    }
    assert_eq!(from_engine_color(bevy_render::color::Color::WHITE), Color::white());
}

#[test]
fn order_of_identities_agrees_with_the_engine() {
    let ids = [
        from_engine_handle(0, 0),
        from_engine_handle(0, u64::MAX),
        from_engine_handle(1, 3),
        from_engine_handle(0x0100_0000_0000_0000_0000_0000_0000_0000, 3),
        from_engine_handle(0xff, 2),
        from_engine_handle(u128::MAX, 0),
    ];
    for (engine_a, a) in ids {
        for (engine_b, b) in ids {
            assert_eq!(a.is_before(&b), engine_a < engine_b);
            assert_eq!(a == b, engine_a == engine_b);
        }
    }
    let pending: bevy_asset::HandleId = bevy_asset::AssetPath::from("a.png").get_id().into();
    for (engine, own) in ids {
        assert!(engine < pending);
        assert!(own.is_before(&HandleId::AssetPathId(0, 0)));
        assert!(!HandleId::AssetPathId(0, 0).is_before(&own));
    }
}
