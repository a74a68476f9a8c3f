//! Texture data: an image file's bytes decoded and laid out for the upload.

use vstd::prelude::*;
use crate::memory::texture_size;

verus! {

/// An image as the decoder hands it out.
pub struct DecodedImage {
    pub width: u32,
    pub height: u32,
    /// The number of channels of each pixel.
    pub channels: u8,
    /// The number of bytes that each pixel takes.
    pub bytes_per_pixel: u8,
    /// The pixels, row by row.
    pub bytes: Vec<u8>,
}

/// What a texture's creation needs of its image.
pub struct TextureData {
    pub width: u32,
    pub height: u32,
    /// The bytes that the staging buffer and the upload take.
    pub size: u64,
    /// The pixels, row by row, four channels of eight bits each.
    pub pixels: Vec<u8>,
}

/// Why an image gives no texture.
#[derive(Clone, Copy, Debug, PartialEq, Eq, Structural)]
pub enum TextureError {
    /// The bytes are no image that the decoder reads.
    Undecodable,
    /// The image does not have four channels of eight bits each.
    NotRgba8 { channels: u8, bytes_per_pixel: u8 },
    /// The image has more pixels than a `u64` counts bytes for.
    TooLarge,
    /// The image's bytes are not four for each of its pixels.
    WrongLength { expected: u64, found: usize },
}

/// `image::load_from_memory`, which guesses the format from the bytes and
/// decodes them, with the decoded image's `width`, `height`, the
/// `channel_count` and `bytes_per_pixel` of its `color`, and its
/// `into_bytes`. What comes back depends on more than the bytes (the
/// decoders registered in the process, the memory at hand, the machine's
/// word), so nothing is claimed of it.
#[verifier::external_body]
fn decode(file: &Vec<u8>) -> (image: Option<DecodedImage>) {
    match image::load_from_memory(file) {
        Ok(decoded) => Some(
            DecodedImage {
                width: decoded.width(),
                height: decoded.height(),
                channels: decoded.color().channel_count(),
                bytes_per_pixel: decoded.color().bytes_per_pixel(),
                bytes: decoded.into_bytes(),
            },
        ),
        Err(_) => None,
    }
}

/// The texture data that a decoded image gives: the image as it is, where
/// each pixel has four channels in four bytes, which is eight bits to the
/// channel, and the bytes are four for each pixel.
pub open spec fn texture_data_of(
    width: u32,
    height: u32,
    channels: u8,
    bytes_per_pixel: u8,
    bytes: Seq<u8>,
) -> Result<(u32, u32, u64, Seq<u8>), TextureError> {
    if channels != 4 || bytes_per_pixel != 4 {
        Err(TextureError::NotRgba8 { channels, bytes_per_pixel })
    } else if width * height * 4 > u64::MAX {
        Err(TextureError::TooLarge)
    } else if bytes.len() != width * height * 4 {
        Err(
            TextureError::WrongLength {
                expected: (width * height * 4) as u64,
                found: bytes.len() as usize,
            },
        )
    } else {
        Ok((width, height, (width * height * 4) as u64, bytes))
    }
}

/// What `data` holds, for comparison.
pub open spec fn data_view(data: TextureData) -> (u32, u32, u64, Seq<u8>) {
    (data.width, data.height, data.size, data.pixels@)
}

/// Whether `result` is the outcome `expected`.
pub open spec fn is_outcome(
    result: Result<TextureData, TextureError>,
    expected: Result<(u32, u32, u64, Seq<u8>), TextureError>,
) -> bool {
    match result {
        Ok(data) => expected == Ok::<(u32, u32, u64, Seq<u8>), TextureError>(data_view(data)),
        Err(error) => expected == Err::<(u32, u32, u64, Seq<u8>), TextureError>(error),
    }
}

/// Lays a decoded image out for the upload. Only an image of four channels
/// of eight bits each is taken, as it is; its size is four bytes for each
/// pixel. An image of other channels, one too large to count, and one whose
/// bytes are not as many as its pixels need, is refused.
pub fn texture_data(image: DecodedImage) -> (result: Result<TextureData, TextureError>)
    ensures
        is_outcome(
            result,
            texture_data_of(
                image.width,
                image.height,
                image.channels,
                image.bytes_per_pixel,
                image.bytes@,
            ),
        ),
{
    if image.channels != 4 || image.bytes_per_pixel != 4 {
        return Err(
            TextureError::NotRgba8 {
                channels: image.channels,
                bytes_per_pixel: image.bytes_per_pixel,
            },
        );
    }
    let size = match texture_size(image.width, image.height) {
        Some(size) => size,
        None => {
            return Err(TextureError::TooLarge);
        },
    };
    let found = image.bytes.len();
    if found as u64 != size {
        return Err(TextureError::WrongLength { expected: size, found });
    }
    Ok(TextureData { width: image.width, height: image.height, size, pixels: image.bytes })
}

/// Decodes an image file's bytes and lays the image out for the upload.
/// Either the decoder reads no image from the bytes, or the result is what
/// `texture_data` makes of the image that it read.
pub fn load_texture(file: &Vec<u8>) -> (result: Result<TextureData, TextureError>)
    ensures
        result matches Err(TextureError::Undecodable) || exists|
            width: u32,
            height: u32,
            channels: u8,
            bytes_per_pixel: u8,
            bytes: Seq<u8>,
        |
            is_outcome(
                result,
                #[trigger] texture_data_of(width, height, channels, bytes_per_pixel, bytes),
            ),
{
    match decode(file) {
        Some(image) => {
            let ghost decoded = (
                image.width,
                image.height,
                image.channels,
                image.bytes_per_pixel,
                image.bytes@,
            );
            let result = texture_data(image);
            proof {
                assert(is_outcome(
                    result,
                    texture_data_of(decoded.0, decoded.1, decoded.2, decoded.3, decoded.4),
                ));
            }
            result
        },
        None => Err(TextureError::Undecodable),
    }
}

} // verus!
