//! From the bytes of an image file to what is uploaded as a texture.

use vstd::prelude::*;

verus! {

/// Texel format of an uploaded texture.
#[derive(Clone, Copy, Debug, PartialEq, Eq, Structural)]
pub enum TextureFormat {
    /// Four 8-bit channels read as they are.
    Rgba8Unorm,
    /// Four 8-bit channels, the colour channels decoded from sRGB on read.
    Rgba8UnormSrgb,
}

/// Whether premultiplied pixels are re-premultiplied in linear space before
/// upload. Content is authored against either convention, so the choice is
/// left to the embedder.
#[derive(Clone, Copy, Debug, PartialEq, Eq, Structural)]
pub enum PremultiplyPolicy {
    /// Upload the pixels as decoded.
    Keep,
    /// Correct premultiplied pixels that are drawn to an sRGB surface.
    CorrectForSrgb,
}

/// Why an image could not be turned into a texture.
#[derive(Clone, Debug, PartialEq, Eq)]
pub enum TextureError {
    /// The bytes are no image that can be decoded.
    Decode { reason: String },
    /// The pixel data is not four bytes for each texel of the stated size.
    SizeMismatch { width: u32, height: u32, len: usize },
}

/// A texture ready for upload: tightly packed RGBA8 texels, row after row.
#[derive(Clone, Debug, PartialEq, Eq)]
pub struct TextureUpload {
    pub width: u32,
    pub height: u32,
    pub format: TextureFormat,
    pub pixels: Vec<u8>,
    /// Whether the pixels still have to be corrected for premultiplication
    /// before they are uploaded.
    pub correct_premultiplication: bool,
}

/// `image::ImageError`: what the decoder reports. It is carried from the
/// decoder to `describe` and never looked into.
#[verifier::external_type_specification]
#[verifier::external_body]
pub struct ExImageError(image::ImageError);

/// `image::load_from_memory`, followed by `DynamicImage::to_rgba8`, and the
/// buffer's `dimensions` and `into_vec`. Nothing is claimed of the outcome:
/// which format the bytes are taken for, and which decoder reads them,
/// depends on the decoders registered in the process as well as on the
/// bytes.
#[verifier::external_body]
fn decode_rgba8(bytes: &[u8]) -> (outcome: Result<(u32, u32, Vec<u8>), image::ImageError>) {
    let image = image::load_from_memory(bytes)?;
    let pixels = image.to_rgba8();
    let (width, height) = pixels.dimensions();
    Ok((width, height, pixels.into_vec()))
}

/// `ImageError`'s `Display`, as a `String`. Nothing is claimed of the text.
#[verifier::external_body]
fn describe(error: &image::ImageError) -> (reason: String) {
    error.to_string()
}

/// The format of a texture: aware of sRGB exactly when the surface is sRGB
/// and the content has premultiplied alpha, linear otherwise.
pub open spec fn format_for(surface_is_srgb: bool, premultiplied_alpha: bool) -> TextureFormat {
    if surface_is_srgb && premultiplied_alpha {
        TextureFormat::Rgba8UnormSrgb
    } else {
        TextureFormat::Rgba8Unorm
    }
}

/// Whether pixels are to be corrected before upload: only under the
/// correcting policy, and then only for premultiplied content drawn to an
/// sRGB surface.
pub open spec fn correction_for(
    policy: PremultiplyPolicy,
    surface_is_srgb: bool,
    premultiplied_alpha: bool,
) -> bool {
    policy == PremultiplyPolicy::CorrectForSrgb && surface_is_srgb && premultiplied_alpha
}

/// The format of a texture.
pub fn texture_format(surface_is_srgb: bool, premultiplied_alpha: bool) -> (format: TextureFormat)
    ensures
        format == format_for(surface_is_srgb, premultiplied_alpha),
{
    if surface_is_srgb && premultiplied_alpha {
        TextureFormat::Rgba8UnormSrgb
    } else {
        TextureFormat::Rgba8Unorm
    }
}

/// `outcome` is what becomes of pixel data of the stated size: an upload
/// that holds the same pixels where there are four bytes per texel, and a
/// size mismatch that reports the three numbers where there are not.
pub open spec fn assembled(
    outcome: Result<TextureUpload, TextureError>,
    width: u32,
    height: u32,
    pixels: Seq<u8>,
    surface_is_srgb: bool,
    premultiplied_alpha: bool,
    policy: PremultiplyPolicy,
) -> bool {
    if pixels.len() == 4 * (width * height) {
        &&& outcome is Ok
        &&& outcome->Ok_0.width == width
        &&& outcome->Ok_0.height == height
        &&& outcome->Ok_0.pixels@ == pixels
        &&& outcome->Ok_0.format == format_for(surface_is_srgb, premultiplied_alpha)
        &&& outcome->Ok_0.correct_premultiplication == correction_for(
            policy,
            surface_is_srgb,
            premultiplied_alpha,
        )
    } else {
        &&& outcome is Err
        &&& outcome->Err_0 == (TextureError::SizeMismatch { width, height, len: pixels.len() as usize })
    }
}

impl TextureUpload {
    /// The upload for pixel data of the stated size.
    pub fn from_pixels(
        width: u32,
        height: u32,
        pixels: Vec<u8>,
        surface_is_srgb: bool,
        premultiplied_alpha: bool,
        policy: PremultiplyPolicy,
    ) -> (outcome: Result<TextureUpload, TextureError>)
        ensures
            assembled(
                outcome,
                width,
                height,
                pixels@,
                surface_is_srgb,
                premultiplied_alpha,
                policy,
            ),
            sound(outcome, surface_is_srgb, premultiplied_alpha, policy),
    {
        assert(width * height <= 0xFFFF_FFFF * 0xFFFF_FFFF) by (nonlinear_arith)
            requires
                width <= 0xFFFF_FFFF,
                height <= 0xFFFF_FFFF,
        ;
        let texels: u64 = width as u64 * height as u64;
        let expected: u128 = 4 * (texels as u128);
        if pixels.len() as u128 != expected {
            return Err(TextureError::SizeMismatch { width, height, len: pixels.len() });
        }
        let correct_premultiplication = match policy {
            PremultiplyPolicy::Keep => false,
            PremultiplyPolicy::CorrectForSrgb => surface_is_srgb && premultiplied_alpha,
        };
        Ok(
            TextureUpload {
                width,
                height,
                format: texture_format(surface_is_srgb, premultiplied_alpha),
                pixels,
                correct_premultiplication,
            },
        )
    }
}

/// `outcome` is what becomes of an image whose decoding gave `decoded`: the
/// decoder's complaint where it failed, and else what becomes of the decoded
/// pixel data.
pub open spec fn concluded(
    outcome: Result<TextureUpload, TextureError>,
    decoded: Result<(u32, u32, Vec<u8>), String>,
    surface_is_srgb: bool,
    premultiplied_alpha: bool,
    policy: PremultiplyPolicy,
) -> bool {
    match decoded {
        Err(reason) => outcome == Err::<TextureUpload, TextureError>(
            TextureError::Decode { reason },
        ),
        Ok(image) => assembled(
            outcome,
            image.0,
            image.1,
            image.2@,
            surface_is_srgb,
            premultiplied_alpha,
            policy,
        ),
    }
}

/// What holds of a prepared texture whatever the decoder made of the bytes.
/// An upload has the format and the correction that the surface, the alpha
/// convention and the policy call for, and four bytes of pixels per texel.
/// An error is the decoder's, or reports pixel data that is not four bytes
/// per texel.
pub open spec fn sound(
    outcome: Result<TextureUpload, TextureError>,
    surface_is_srgb: bool,
    premultiplied_alpha: bool,
    policy: PremultiplyPolicy,
) -> bool {
    match outcome {
        Ok(upload) => {
            &&& upload.format == format_for(surface_is_srgb, premultiplied_alpha)
            &&& upload.correct_premultiplication == correction_for(
                policy,
                surface_is_srgb,
                premultiplied_alpha,
            )
            &&& upload.pixels@.len() == 4 * (upload.width * upload.height)
        },
        Err(TextureError::Decode { .. }) => true,
        Err(TextureError::SizeMismatch { width, height, len }) => len != 4 * (width * height),
    }
}

impl TextureUpload {
    /// The upload for what the decoder made of an image: its width, height
    /// and pixel data, or its complaint.
    pub fn from_decoding(
        decoded: Result<(u32, u32, Vec<u8>), String>,
        surface_is_srgb: bool,
        premultiplied_alpha: bool,
        policy: PremultiplyPolicy,
    ) -> (outcome: Result<TextureUpload, TextureError>)
        ensures
            concluded(outcome, decoded, surface_is_srgb, premultiplied_alpha, policy),
            sound(outcome, surface_is_srgb, premultiplied_alpha, policy),
    {
        match decoded {
            Ok((width, height, pixels)) => TextureUpload::from_pixels(
                width,
                height,
                pixels,
                surface_is_srgb,
                premultiplied_alpha,
                policy,
            ),
            Err(reason) => Err(TextureError::Decode { reason }),
        }
    }
}

/// Decodes the bytes of an image file into the texture to upload for it.
/// What the bytes decode to is the decoder's affair; what is made of its
/// answer is `TextureUpload::from_decoding`.
pub fn prepare_texture(
    bytes: &[u8],
    surface_is_srgb: bool,
    premultiplied_alpha: bool,
    policy: PremultiplyPolicy,
) -> (outcome: Result<TextureUpload, TextureError>)
    ensures
        sound(outcome, surface_is_srgb, premultiplied_alpha, policy),
{
    let decoded = match decode_rgba8(bytes) {
        Ok(image) => Ok(image),
        Err(error) => Err(describe(&error)),
    };
    TextureUpload::from_decoding(decoded, surface_is_srgb, premultiplied_alpha, policy)
}

} // verus!
