use render_core::command::{Command, FilterMode, WrapMode};
use image::ImageFormat;
use render_core::decode::{decode, DecodedImage};
use render_core::texture::Texture;

fn two_by_one_rgba_png() -> Vec<u8> {
    vec![
        137, 80, 78, 71, 13, 10, 26, 10, 0, 0, 0, 13,
        73, 72, 68, 82, 0, 0, 0, 2, 0, 0, 0, 1,
        8, 6, 0, 0, 0, 244, 34, 127, 138, 0, 0, 0,
        15, 73, 68, 65, 84, 120, 218, 99, 248, 207, 192, 240,
        31, 8, 27, 0, 16, 121, 3, 126, 196, 24, 114, 144,
        0, 0, 0, 0, 73, 69, 78, 68, 174, 66, 96, 130,
    ]
}

fn one_by_two_rgb_png() -> Vec<u8> {
    vec![
        137, 80, 78, 71, 13, 10, 26, 10, 0, 0, 0, 13,
        73, 72, 68, 82, 0, 0, 0, 1, 0, 0, 0, 2,
        8, 2, 0, 0, 0, 22, 227, 33, 112, 0, 0, 0,
        16, 73, 68, 65, 84, 120, 218, 99, 224, 18, 145, 99,
        208, 48, 178, 1, 0, 2, 116, 0, 211, 150, 77, 204,
        149, 0, 0, 0, 0, 73, 69, 78, 68, 174, 66, 96,
        130,
    ]
}

#[test]
fn image_bytes_are_decoded_to_rgba_rows() {
    let made = Texture::from_image_bytes::<f32>(
        9,
        &two_by_one_rgba_png(),
        ImageFormat::Png,
        WrapMode::Repeat,
        FilterMode::LinearMipMapLinear,
        FilterMode::Linear,
    );
    let (texture, commands) = made;
    assert_eq!(texture.expect("the bytes are a PNG file").get_id(), 9);
    assert_eq!(
        commands,
        vec![
            Command::BindTexture { texture: 9 },
            Command::SetWrapS { mode: WrapMode::Repeat },
            Command::SetWrapT { mode: WrapMode::Repeat },
            Command::SetMinFilter { mode: FilterMode::LinearMipMapLinear },
            Command::SetMagFilter { mode: FilterMode::Linear },
            Command::TexImage {
                width: 2,
                height: 1,
                pixels: vec![255, 0, 0, 255, 0, 255, 0, 128],
            },
            Command::GenerateMipmap,
        ]
    );
}

#[test]
fn image_without_alpha_becomes_opaque() {
    let made = Texture::from_image_bytes::<f32>(
        3,
        &one_by_two_rgb_png(),
        ImageFormat::Png,
        WrapMode::ClampToEdge,
        FilterMode::Nearest,
        FilterMode::Nearest,
    );
    let (texture, commands) = made;
    assert!(texture.is_some());
    assert_eq!(
        commands[5],
        Command::TexImage {
            width: 1,
            height: 2,
            pixels: vec![10, 20, 30, 255, 40, 50, 60, 255],
        }
    );
}

#[test]
fn bytes_that_are_no_image_give_no_texture() {
    let (texture, commands) = Texture::from_image_bytes::<f32>(
        3,
        b"not an image",
        ImageFormat::Png,
        WrapMode::Repeat,
        FilterMode::Linear,
        FilterMode::Linear,
    );
    assert!(texture.is_none());
    assert_eq!(commands, vec![Command::DeleteTexture { texture: 3 }]);
}

#[test]
fn bytes_of_another_format_give_no_texture() {
    let (texture, commands) = Texture::from_image_bytes::<f32>(
        4,
        &two_by_one_rgba_png(),
        ImageFormat::Jpeg,
        WrapMode::Repeat,
        FilterMode::Linear,
        FilterMode::Linear,
    );
    assert!(texture.is_none());
    assert_eq!(commands, vec![Command::DeleteTexture { texture: 4 }]);
}

#[test]
fn empty_bytes_give_no_texture_and_release_the_object() {
    let (texture, commands) = Texture::from_image_bytes::<f32>(
        8,
        &[],
        ImageFormat::Png,
        WrapMode::Repeat,
        FilterMode::Linear,
        FilterMode::Linear,
    );
    assert!(texture.is_none());
    assert_eq!(commands, vec![Command::DeleteTexture { texture: 8 }]);
}

#[test]
fn decode_gives_four_bytes_for_each_pixel() {
    assert_eq!(
        decode(&two_by_one_rgba_png(), ImageFormat::Png),
        Some(DecodedImage { width: 2, height: 1, pixels: vec![255, 0, 0, 255, 0, 255, 0, 128] })
    );
    let rows = decode(&one_by_two_rgb_png(), ImageFormat::Png).expect("the bytes are a PNG file");
    assert_eq!(rows.pixels.len(), 4 * 1 * 2);
    assert_eq!(decode(b"not an image", ImageFormat::Png), None);
}

#[test]
fn format_that_the_build_does_not_decode_gives_nothing() {
    assert_eq!(decode(&two_by_one_rgba_png(), ImageFormat::Gif), None);
}

#[test]
fn from_decoded_fills_the_texture_or_releases_the_object() {
    let image = DecodedImage { width: 1, height: 1, pixels: vec![1, 2, 3, 4] };
    let (texture, commands) = Texture::from_decoded::<f32>(
        6,
        Some(image),
        WrapMode::MirroredRepeat,
        FilterMode::Nearest,
        FilterMode::Linear,
    );
    assert_eq!(texture.expect("an image gives a texture").get_wrap(), WrapMode::MirroredRepeat);
    assert_eq!(commands.len(), 7);
    assert_eq!(commands[5], Command::TexImage { width: 1, height: 1, pixels: vec![1, 2, 3, 4] });
    let (texture, commands) = Texture::from_decoded::<f32>(
        6,
        None,
        WrapMode::Repeat,
        FilterMode::Nearest,
        FilterMode::Linear,
    );
    assert!(texture.is_none());
    assert_eq!(commands, vec![Command::DeleteTexture { texture: 6 }]);
}
