//! The layout of the frames a simulated camera delivers: sample buffers,
//! interleaved channels, little-endian 16-bit samples, and the integer parts
//! of the generated patterns.

use vstd::prelude::*;

use crate::types::FrameFormat;

verus! {

/// Pattern type for generated images
#[derive(Debug, Clone, Copy, PartialEq, Eq, Structural)]
pub enum ImagePattern {
    /// Gradient from dark to light with noise
    Gradient,
    /// Simulated star field
    StarField,
    /// Flat field with noise
    Flat,
    /// Test pattern with geometric shapes
    TestPattern,
}

impl Default for ImagePattern {
    /// The gradient pattern.
    fn default() -> (p: Self)
        ensures
            p == ImagePattern::Gradient,
    {
        ImagePattern::Gradient
    }
}

/// The number of bytes a frame of `format` holds: one byte per sample up to
/// 8 bits per pixel, else two.
pub open spec fn frame_byte_len(format: FrameFormat) -> int {
    format.width * format.height * format.channels * (if format.bits_per_pixel <= 8 {
        1int
    } else {
        2int
    })
}

/// Allocates the zeroed buffer of a `width` x `height` image with `channels`
/// samples per pixel of `bytes_per_sample` bytes each.
pub fn sample_buffer(width: u32, height: u32, channels: u32, bytes_per_sample: usize) -> (data:
    Vec<u8>)
    requires
        width * height <= u32::MAX,
        width * height * channels * bytes_per_sample <= usize::MAX,
    ensures
        data@.len() == width * height * channels * bytes_per_sample,
        forall|i: int| 0 <= i < data@.len() ==> data@[i] == 0,
{
    let pixel_count = (width * height) as usize;
    proof {
        assert(pixel_count * channels <= pixel_count * channels * bytes_per_sample
            || bytes_per_sample == 0) by (nonlinear_arith)
            requires
                pixel_count == width * height,
        ;
        if bytes_per_sample == 0 {
            assert(pixel_count * channels * bytes_per_sample == 0) by (nonlinear_arith)
                requires
                    bytes_per_sample == 0,
            ;
        }
    }
    let total_size = if bytes_per_sample == 0 {
        0
    } else {
        pixel_count * channels as usize * bytes_per_sample
    };
    proof {
        assert(total_size == width * height * channels * bytes_per_sample) by (nonlinear_arith)
            requires
                pixel_count == width * height,
                bytes_per_sample == 0 ==> total_size == 0,
                bytes_per_sample != 0 ==> total_size == pixel_count * channels
                    * bytes_per_sample,
        ;
    }
    let mut data: Vec<u8> = Vec::new();
    while data.len() < total_size
        invariant
            data@.len() <= total_size,
            forall|i: int| 0 <= i < data@.len() ==> data@[i] == 0,
        decreases total_size - data@.len(),
    {
        data.push(0);
    }
    data
}

/// Writes `value` into the `channels` samples that start at sample index `index`.
pub fn fill_pixel_8bit(data: &mut Vec<u8>, index: usize, channels: usize, value: u8)
    requires
        index + channels <= old(data)@.len(),
    ensures
        final(data)@.len() == old(data)@.len(),
        forall|i: int|
            0 <= i < old(data)@.len() ==> #[trigger] final(data)@[i] == if index <= i < index
                + channels {
                value
            } else {
                old(data)@[i]
            },
{
    let len = data.len();
    let mut c: usize = 0;
    while c < channels
        invariant
            c <= channels,
            len == old(data)@.len(),
            index + channels <= old(data)@.len(),
            data@.len() == old(data)@.len(),
            forall|i: int|
                0 <= i < old(data)@.len() ==> #[trigger] data@[i] == if index <= i < index + c {
                    value
                } else {
                    old(data)@[i]
                },
        decreases channels - c,
    {
        data.set(index + c, value);
        c = c + 1;
    }
}

/// Writes the 16-bit `value`, low byte first, into the `channels` samples
/// that start at sample index `index` (sample `k` occupies bytes `2k` and `2k + 1`).
pub fn fill_pixel_16bit(data: &mut Vec<u8>, index: usize, channels: usize, value: u16)
    requires
        2 * (index + channels) <= old(data)@.len(),
    ensures
        final(data)@.len() == old(data)@.len(),
        forall|i: int|
            0 <= i < old(data)@.len() ==> #[trigger] final(data)@[i] == if 2 * index <= i < 2 * (
            index + channels) {
                if i % 2 == 0 {
                    (value % 256) as u8
                } else {
                    (value / 256) as u8
                }
            } else {
                old(data)@[i]
            },
{
    let len = data.len();
    let low: u8 = (value % 256) as u8;
    let high: u8 = (value / 256) as u8;
    let base = 2 * index;
    let mut c: usize = 0;
    while c < channels
        invariant
            c <= channels,
            base == 2 * index,
            len == old(data)@.len(),
            low == (value % 256) as u8,
            high == (value / 256) as u8,
            2 * (index + channels) <= old(data)@.len(),
            data@.len() == old(data)@.len(),
            forall|i: int|
                0 <= i < old(data)@.len() ==> #[trigger] data@[i] == if 2 * index <= i < 2 * (
                index + c) {
                    if i % 2 == 0 {
                        low
                    } else {
                        high
                    }
                } else {
                    old(data)@[i]
                },
        decreases channels - c,
    {
        data.set(base + 2 * c, low);
        data.set(base + 2 * c + 1, high);
        c = c + 1;
    }
}

/// Clamps a sample value into the 8-bit range.
pub fn clamp_to_u8(value: i32) -> (v: u8)
    ensures
        v == (if value < 0 {
            0
        } else if value > 255 {
            255
        } else {
            value
        }),
{
    if value < 0 {
        0
    } else if value > 255 {
        255
    } else {
        value as u8
    }
}

/// Clamps a sample value into the 16-bit range.
pub fn clamp_to_u16(value: i32) -> (v: u16)
    ensures
        v == (if value < 0 {
            0
        } else if value > 65535 {
            65535
        } else {
            value
        }),
{
    if value < 0 {
        0
    } else if value > 65535 {
        65535
    } else {
        value as u16
    }
}

/// Whether the pixel at (`x`, `y`) lies in a light block of the test pattern's
/// checkerboard of 64 x 64 blocks.
pub fn is_light_block(x: u32, y: u32) -> (b: bool)
    ensures
        b == ((x / 64 + y / 64) % 2 == 0),
{
    let block_x = x / 64;
    let block_y = y / 64;
    (block_x + block_y) % 2 == 0
}

} // verus!
