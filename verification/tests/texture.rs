use rust_game_engine::sampler::{
    sampler_settings, texture_sampler_settings, AddressMode, FilterMode, SamplerKind,
    SamplerSettings,
};
use rust_game_engine::texture::{
    decode_texture_image, rgba8_copy_layout, texture_extent, Extent3d, TexelCopyBufferLayout,
    TextureError,
};

fn png_bytes(width: u32, height: u32, rgba: Vec<u8>) -> Vec<u8> {
    let image = image::RgbaImage::from_raw(width, height, rgba).unwrap();
    let mut out = std::io::Cursor::new(Vec::new());
    image.write_to(&mut out, image::ImageFormat::Png).unwrap();
    out.into_inner()
}

#[test]
fn decodes_a_png_into_rgba_texels() {
    let texels = vec![255, 0, 0, 255, 0, 255, 0, 128, 0, 0, 255, 0, 10, 20, 30, 40, 50, 60];
    let texels: Vec<u8> = texels.into_iter().take(12).collect();
    let bytes = png_bytes(3, 1, texels.clone());
    let image = match decode_texture_image(&bytes) {
        Ok(image) => image,
        Err(TextureError::Decode(e)) => panic!("decode failed: {e}"),
    };
    assert_eq!((image.width, image.height), (3, 1));
    assert_eq!(image.rgba, texels);
    let (extent, layout) = image.upload_layout();
    assert_eq!(extent, Extent3d { width: 3, height: 1, depth_or_array_layers: 1 });
    assert_eq!(
        layout,
        TexelCopyBufferLayout { offset: 0, bytes_per_row: Some(12), rows_per_image: Some(1) }
    );
    let copied = layout.bytes_per_row.unwrap() as usize * layout.rows_per_image.unwrap() as usize;
    assert_eq!(copied, image.rgba.len());
}

#[test]
fn rejects_bytes_that_are_no_image() {
    // PNG magic bytes followed by garbage: the format is found, decoding fails.
    let mut truncated = png_bytes(2, 2, vec![7; 16]);
    truncated.truncate(20);
    assert!(matches!(decode_texture_image(&truncated), Err(TextureError::Decode(_))));
    assert!(matches!(decode_texture_image(b"not an image at all"), Err(TextureError::Decode(_))));
    assert!(matches!(decode_texture_image(&[]), Err(TextureError::Decode(_))));
}

#[test]
fn upload_layout_takes_four_bytes_per_texel() {
    assert_eq!(
        rgba8_copy_layout(256, 128),
        TexelCopyBufferLayout { offset: 0, bytes_per_row: Some(1024), rows_per_image: Some(128) }
    );
    assert_eq!(texture_extent(7, 9), Extent3d { width: 7, height: 9, depth_or_array_layers: 1 });
}

#[test]
fn the_four_samplers_differ_in_address_and_filter_modes() {
    assert_eq!(
        sampler_settings(SamplerKind::ClampLinear),
        SamplerSettings {
            address_mode_u: AddressMode::ClampToEdge,
            address_mode_v: AddressMode::ClampToEdge,
            address_mode_w: AddressMode::ClampToEdge,
            mag_filter: FilterMode::Linear,
            min_filter: FilterMode::Nearest,
            mipmap_filter: FilterMode::Nearest,
        }
    );
    assert_eq!(sampler_settings(SamplerKind::RepeatNearest).address_mode_u, AddressMode::Repeat);
    assert_eq!(sampler_settings(SamplerKind::RepeatNearest).mag_filter, FilterMode::Nearest);
    assert_eq!(
        sampler_settings(SamplerKind::MirrorNearest).address_mode_v,
        AddressMode::MirrorRepeat
    );
    let repeat_linear = sampler_settings(SamplerKind::RepeatLinear);
    assert_eq!(repeat_linear.min_filter, FilterMode::Linear);
    assert_eq!(repeat_linear.mipmap_filter, FilterMode::Nearest);
    let texture = texture_sampler_settings();
    assert_eq!(texture.address_mode_u, AddressMode::ClampToEdge);
    assert_eq!(texture.address_mode_v, AddressMode::ClampToEdge);
    assert_eq!(texture.address_mode_w, AddressMode::ClampToEdge);
    assert_eq!(texture.mag_filter, FilterMode::Linear);
    assert_eq!(texture.min_filter, FilterMode::Nearest);
}

#[test]
fn decoding_matches_the_image_crate_for_png_and_jpeg() {
    let texels: Vec<u8> = (0..4 * 5 * 3).map(|i| (i * 37 % 251) as u8).collect();
    let png = png_bytes(5, 3, texels);
    let rgb = image::RgbImage::from_fn(8, 8, |x, y| image::Rgb([(x * 30) as u8, (y * 30) as u8, 90]));
    let mut jpeg = std::io::Cursor::new(Vec::new());
    rgb.write_to(&mut jpeg, image::ImageFormat::Jpeg).unwrap();
    for bytes in [png, jpeg.into_inner()] {
        let expected = image::load_from_memory(&bytes).unwrap().to_rgba8();
        let image = match decode_texture_image(&bytes) {
            Ok(image) => image,
            Err(TextureError::Decode(e)) => panic!("decode failed: {e}"),
        };
        assert_eq!((image.width, image.height), expected.dimensions());
        assert_eq!(image.rgba, expected.into_raw());
    }
}
