use egui_spine::renderer::texture::{
    prepare_texture, texture_format, PremultiplyPolicy, TextureError, TextureFormat,
    TextureUpload,
};

fn png(width: u32, height: u32, pixels: Vec<u8>) -> Vec<u8> {
    let image = image::RgbaImage::from_raw(width, height, pixels).unwrap();
    let mut bytes = Vec::new();
    image.write_to(&mut std::io::Cursor::new(&mut bytes), image::ImageFormat::Png).unwrap();
    bytes
}

#[test]
fn format_is_srgb_only_for_premultiplied_content_on_srgb_surfaces() {
    assert_eq!(texture_format(true, true), TextureFormat::Rgba8UnormSrgb);
    assert_eq!(texture_format(true, false), TextureFormat::Rgba8Unorm);
    assert_eq!(texture_format(false, true), TextureFormat::Rgba8Unorm);
    assert_eq!(texture_format(false, false), TextureFormat::Rgba8Unorm);
}

#[test]
fn upload_keeps_pixels_and_size() {
    let pixels = vec![1, 2, 3, 4, 5, 6, 7, 8, 9, 10, 11, 12, 13, 14, 15, 16, 17, 18, 19, 20, 21, 22, 23, 24];
    let upload =
        TextureUpload::from_pixels(3, 2, pixels.clone(), true, true, PremultiplyPolicy::Keep);
    assert_eq!(
        upload,
        Ok(TextureUpload {
            width: 3,
            height: 2,
            format: TextureFormat::Rgba8UnormSrgb,
            pixels,
            correct_premultiplication: false,
        })
    );
}

#[test]
fn correction_follows_the_policy() {
    for surface_is_srgb in [false, true] {
        for premultiplied in [false, true] {
            let keep = TextureUpload::from_pixels(
                1,
                1,
                vec![0; 4],
                surface_is_srgb,
                premultiplied,
                PremultiplyPolicy::Keep,
            );
            assert!(!keep.unwrap().correct_premultiplication);
            let correct = TextureUpload::from_pixels(
                1,
                1,
                vec![0; 4],
                surface_is_srgb,
                premultiplied,
                PremultiplyPolicy::CorrectForSrgb,
            );
            assert_eq!(
                correct.unwrap().correct_premultiplication,
                surface_is_srgb && premultiplied
            );
        }
    }
}

#[test]
fn pixel_data_of_the_wrong_length_is_refused() {
    assert_eq!(
        TextureUpload::from_pixels(2, 2, vec![0; 15], false, false, PremultiplyPolicy::Keep),
        Err(TextureError::SizeMismatch { width: 2, height: 2, len: 15 })
    );
    assert_eq!(
        TextureUpload::from_pixels(2, 2, vec![0; 17], false, false, PremultiplyPolicy::Keep),
        Err(TextureError::SizeMismatch { width: 2, height: 2, len: 17 })
    );
    assert_eq!(
        TextureUpload::from_pixels(
            0xFFFF_FFFF,
            0xFFFF_FFFF,
            Vec::new(),
            false,
            false,
            PremultiplyPolicy::Keep
        ),
        Err(TextureError::SizeMismatch { width: 0xFFFF_FFFF, height: 0xFFFF_FFFF, len: 0 })
    );
}

#[test]
fn empty_image_needs_no_pixels() {
    let upload = TextureUpload::from_pixels(0, 7, Vec::new(), false, true, PremultiplyPolicy::Keep);
    assert_eq!(upload.map(|u| (u.width, u.height, u.pixels.len())), Ok((0, 7, 0)));
}

#[test]
fn png_is_decoded_to_rgba8() {
    let pixels = vec![255, 0, 0, 255, 0, 255, 0, 128, 0, 0, 255, 0, 10, 20, 30, 40];
    let bytes = png(2, 2, pixels.clone());
    assert_ne!(bytes, pixels);
    let upload = prepare_texture(&bytes, true, false, PremultiplyPolicy::CorrectForSrgb);
    assert_eq!(
        upload,
        Ok(TextureUpload {
            width: 2,
            height: 2,
            format: TextureFormat::Rgba8Unorm,
            pixels,
            correct_premultiplication: false,
        })
    );
}

#[test]
fn premultiplied_png_on_an_srgb_surface_is_marked_for_correction() {
    let bytes = png(1, 2, vec![1, 2, 3, 4, 5, 6, 7, 8]);
    let upload = prepare_texture(&bytes, true, true, PremultiplyPolicy::CorrectForSrgb).unwrap();
    assert_eq!(upload.format, TextureFormat::Rgba8UnormSrgb);
    assert!(upload.correct_premultiplication);
    assert_eq!((upload.width, upload.height), (1, 2));
    assert_eq!(upload.pixels, vec![1, 2, 3, 4, 5, 6, 7, 8]);
}

#[test]
fn decoded_image_becomes_its_upload() {
    let pixels = vec![1, 2, 3, 4, 5, 6, 7, 8];
    let upload = TextureUpload::from_decoding(
        Ok((2, 1, pixels.clone())),
        false,
        true,
        PremultiplyPolicy::CorrectForSrgb,
    );
    assert_eq!(
        upload,
        Ok(TextureUpload {
            width: 2,
            height: 1,
            format: TextureFormat::Rgba8Unorm,
            pixels,
            correct_premultiplication: false,
        })
    );
}

#[test]
fn decoded_image_of_the_wrong_length_is_refused() {
    let upload =
        TextureUpload::from_decoding(Ok((2, 1, vec![0; 7])), true, true, PremultiplyPolicy::Keep);
    assert_eq!(upload, Err(TextureError::SizeMismatch { width: 2, height: 1, len: 7 }));
}

#[test]
fn complaint_of_the_decoder_is_passed_on() {
    let upload = TextureUpload::from_decoding(
        Err("unsupported format".to_string()),
        true,
        true,
        PremultiplyPolicy::Keep,
    );
    assert_eq!(upload, Err(TextureError::Decode { reason: "unsupported format".to_string() }));
}

#[test]
fn bytes_that_are_no_image_fail_to_decode() {
    let outcome = prepare_texture(b"not an image", false, false, PremultiplyPolicy::Keep);
    assert!(matches!(outcome, Err(TextureError::Decode { .. })));
    let outcome = prepare_texture(&[], false, false, PremultiplyPolicy::Keep);
    assert!(matches!(outcome, Err(TextureError::Decode { .. })));
}

#[test]
fn truncated_png_fails_to_decode() {
    let bytes = png(4, 4, vec![7; 64]);
    let outcome = prepare_texture(&bytes[..bytes.len() / 2], false, false, PremultiplyPolicy::Keep);
    match outcome {
        Err(TextureError::Decode { reason }) => assert!(!reason.is_empty()),
        other => panic!("unexpected outcome: {:?}", other),
    }
}
