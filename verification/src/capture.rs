//! Turning a captured screen image into the pixels that the encoder takes.
//!
//! The display server hands an image out as packed pixels, one after the other,
//! row by row, in the depth and byte order of the screen. The encoder takes four
//! bytes per pixel: red, green, blue, alpha.

use vstd::prelude::*;

verus! {

/// How the display server lays out pixels of one depth.
#[derive(Clone, Copy, Debug, PartialEq, Eq, Structural)]
pub struct PixmapFormat {
    pub depth: u8,
    pub bits_per_pixel: u8,
}

/// Whether `index` is the first format of the given depth in `formats`.
pub open spec fn spec_is_first_format(formats: Seq<PixmapFormat>, depth: u8, index: int) -> bool {
    &&& 0 <= index < formats.len()
    &&& formats[index].depth == depth
    &&& forall|earlier: int| 0 <= earlier < index ==> formats[earlier].depth != depth
}

/// The number of bits that a pixel of the given depth takes in an image: that of
/// the first format of this depth that the display server lists, if it lists one.
pub fn bits_per_pixel(formats: &[PixmapFormat], depth: u8) -> (bits: Option<u8>)
    ensures
        match bits {
            Some(found) => exists|index: int|
                #[trigger] spec_is_first_format(formats@, depth, index) && found
                    == formats@[index].bits_per_pixel,
            None => forall|index: int|
                0 <= index < formats@.len() ==> #[trigger] formats@[index].depth != depth,
        },
{
    let mut index: usize = 0;
    while index < formats.len()
        invariant
            index <= formats@.len(),
            forall|earlier: int| 0 <= earlier < index ==> #[trigger] formats@[earlier].depth != depth,
        decreases formats.len() - index,
    {
        if formats[index].depth == depth {
            assert(spec_is_first_format(formats@, depth, index as int));
            return Some(formats[index].bits_per_pixel);
        }
        index += 1;
    }
    None
}

/// The number of bytes that are read of a pixel of the given depth; none for a
/// depth that is not supported.
pub open spec fn spec_bytes_read(depth: u8) -> nat {
    if depth == 8 {
        1
    } else if depth == 16 {
        2
    } else if depth == 24 || depth == 32 {
        3
    } else {
        0
    }
}

/// Where the bytes of pixel number `pixel` start in the image.
pub open spec fn spec_offset(pixel: int, bits_per_pixel: u8) -> int {
    pixel * bits_per_pixel / 8
}

/// A channel of `max + 1` levels, scaled to the range of a byte and rounded down.
pub open spec fn spec_scale(value: int, max: int) -> u8 {
    (value * 255 / max) as u8
}

/// Red, green, blue and alpha of the pixel whose bytes start at `offset`.
///
/// A pixel of depth 8 holds 2 bits of red, 3 of green and 2 of blue below them; one
/// of depth 16 holds 5, 6 and 5 bits; one of depth 24 or 32 holds a byte for each,
/// blue first where the least significant byte comes first. These are opaque. A
/// pixel of any other depth is transparent black.
pub open spec fn spec_pixel(data: Seq<u8>, offset: int, depth: u8, lsb_first: bool) -> Seq<u8> {
    if depth == 8 {
        let byte = data[offset];
        let pixel = if lsb_first {
            byte
        } else {
            (byte & 0x70u8) | (byte >> 4u8)
        };
        seq![
            spec_scale((pixel >> 6u8) as int, 3),
            spec_scale(((pixel >> 2u8) & 7u8) as int, 7),
            spec_scale((pixel & 3u8) as int, 3),
            255u8,
        ]
    } else if depth == 16 {
        let first = data[offset] as u16;
        let second = data[offset + 1] as u16;
        let pixel = if lsb_first {
            first | (second << 8u16)
        } else {
            (first << 8u16) | second
        };
        seq![
            spec_scale((pixel >> 11u16) as int, 31),
            spec_scale(((pixel >> 5u16) & 63u16) as int, 63),
            spec_scale((pixel & 31u16) as int, 31),
            255u8,
        ]
    } else if depth == 24 || depth == 32 {
        if lsb_first {
            seq![data[offset + 2], data[offset + 1], data[offset], 255u8]
        } else {
            seq![data[offset], data[offset + 1], data[offset + 2], 255u8]
        }
    } else {
        seq![0u8, 0u8, 0u8, 0u8]
    }
}

/// Whether an image of `pixels` pixels can be converted: the bytes of every pixel
/// lie within `data`, and four bytes per pixel can be held in memory.
pub open spec fn spec_convertible(data: Seq<u8>, pixels: int, depth: u8, bits_per_pixel: u8) -> bool {
    &&& pixels * 4 <= usize::MAX
    &&& pixels > 0 && spec_bytes_read(depth) > 0 ==> spec_offset(pixels - 1, bits_per_pixel)
        + spec_bytes_read(depth) <= data.len()
}

/// The image as four bytes per pixel, in the order of the pixels.
pub open spec fn spec_to_rgba(
    data: Seq<u8>,
    width: u16,
    height: u16,
    depth: u8,
    bits_per_pixel: u8,
    lsb_first: bool,
) -> Option<Seq<u8>> {
    let pixels = width * height;
    if spec_convertible(data, pixels, depth, bits_per_pixel) {
        Some(
            Seq::new(
                (pixels * 4) as nat,
                |k: int| spec_pixel(data, spec_offset(k / 4, bits_per_pixel), depth, lsb_first)[k % 4],
            ),
        )
    } else {
        None
    }
}

fn scale(value: u8, max: u8) -> (scaled: u8)
    requires
        value <= max,
        max == 3 || max == 7 || max == 31 || max == 63,
    ensures
        scaled == spec_scale(value as int, max as int),
{
    let wide: u16 = value as u16 * 255;
    if max == 3 {
        (wide / 3) as u8
    } else if max == 7 {
        (wide / 7) as u8
    } else if max == 31 {
        (wide / 31) as u8
    } else {
        (wide / 63) as u8
    }
}

fn pixel(data: &[u8], offset: usize, depth: u8, lsb_first: bool) -> (channels: [u8; 4])
    requires
        offset + spec_bytes_read(depth) <= data@.len(),
    ensures
        channels@ == spec_pixel(data@, offset as int, depth, lsb_first),
{
    let length: usize = data.len();
    assert(offset + spec_bytes_read(depth) <= length);
    let channels: [u8; 4] = if depth == 8 {
        let byte: u8 = data[offset];
        let pixel: u8 = if lsb_first {
            byte
        } else {
            (byte & 0x70u8) | (byte >> 4u8)
        };
        assert((pixel >> 6u8) <= 3u8) by (bit_vector);
        assert(((pixel >> 2u8) & 7u8) <= 7u8) by (bit_vector);
        assert((pixel & 3u8) <= 3u8) by (bit_vector);
        [scale(pixel >> 6u8, 3), scale((pixel >> 2u8) & 7u8, 7), scale(pixel & 3u8, 3), 255u8]
    } else if depth == 16 {
        let first: u16 = data[offset] as u16;
        let second: u16 = data[offset + 1] as u16;
        let pixel: u16 = if lsb_first {
            first | (second << 8u16)
        } else {
            (first << 8u16) | second
        };
        assert((pixel >> 11u16) <= 31u16) by (bit_vector);
        assert(((pixel >> 5u16) & 63u16) <= 63u16) by (bit_vector);
        assert((pixel & 31u16) <= 31u16) by (bit_vector);
        [
            scale((pixel >> 11u16) as u8, 31),
            scale(((pixel >> 5u16) & 63u16) as u8, 63),
            scale((pixel & 31u16) as u8, 31),
            255u8,
        ]
    } else if depth == 24 || depth == 32 {
        if lsb_first {
            [data[offset + 2], data[offset + 1], data[offset], 255u8]
        } else {
            [data[offset], data[offset + 1], data[offset + 2], 255u8]
        }
    } else {
        [0u8, 0u8, 0u8, 0u8]
    };
    assert(channels@ =~= spec_pixel(data@, offset as int, depth, lsb_first));
    channels
}

/// Converts an image of `width` by `height` packed pixels to four bytes per pixel.
///
/// Pixel number `p`, counted row by row, starts at byte `p * bits_per_pixel / 8` of
/// `data`. The result is `None` where `data` is too short for the last pixel, or
/// where the converted image would not fit in memory; else it holds red, green,
/// blue and alpha of every pixel, in order.
pub fn to_rgba(
    data: &[u8],
    width: u16,
    height: u16,
    depth: u8,
    bits_per_pixel: u8,
    lsb_first: bool,
) -> (rgba: Option<Vec<u8>>)
    ensures
        match rgba {
            Some(bytes) => Some(bytes@) == spec_to_rgba(
                data@,
                width,
                height,
                depth,
                bits_per_pixel,
                lsb_first,
            ),
            None => spec_to_rgba(data@, width, height, depth, bits_per_pixel, lsb_first) is None,
        },
{
    assert(width * height <= 0xFFFF * 0xFFFF) by (nonlinear_arith)
        requires
            width <= 0xFFFF,
            height <= 0xFFFF,
    ;
    let pixels: u64 = width as u64 * height as u64;
    if pixels * 4 > usize::MAX as u64 {
        return None;
    }
    let reads: u64 = if depth == 8 {
        1
    } else if depth == 16 {
        2
    } else if depth == 24 || depth == 32 {
        3
    } else {
        0
    };
    if pixels > 0 && reads > 0 {
        assert((pixels - 1) * bits_per_pixel <= 0xFFFF_FFFF * 255) by (nonlinear_arith)
            requires
                0 < pixels <= 0xFFFF_FFFF,
                bits_per_pixel <= 255,
        ;
        if (pixels - 1) * bits_per_pixel as u64 / 8 + reads > data.len() as u64 {
            return None;
        }
    }
    let length: usize = data.len();
    let mut rgba: Vec<u8> = Vec::new();
    let mut p: u64 = 0;
    while p < pixels
        invariant
            p <= pixels,
            length == data@.len(),
            pixels == width * height,
            pixels <= 0xFFFF_FFFF,
            pixels * 4 <= usize::MAX,
            reads == spec_bytes_read(depth),
            spec_convertible(data@, pixels as int, depth, bits_per_pixel),
            rgba@ == Seq::new(
                (p * 4) as nat,
                |k: int| spec_pixel(data@, spec_offset(k / 4, bits_per_pixel), depth, lsb_first)[k % 4],
            ),
        decreases pixels - p,
    {
        assert(p * bits_per_pixel <= (pixels - 1) * bits_per_pixel) by (nonlinear_arith)
            requires
                p <= pixels - 1,
                bits_per_pixel >= 0,
        ;
        assert((pixels - 1) * bits_per_pixel <= 0xFFFF_FFFF * 255) by (nonlinear_arith)
            requires
                0 < pixels <= 0xFFFF_FFFF,
                bits_per_pixel <= 255,
        ;
        let wide: u64 = p * bits_per_pixel as u64 / 8;
        assert(wide == spec_offset(p as int, bits_per_pixel));
        assert(wide <= spec_offset(pixels - 1, bits_per_pixel));
        assert(reads > 0 ==> wide + reads <= length);
        let offset: usize = if reads == 0 {
            0
        } else {
            wide as usize
        };
        let channels = pixel(data, offset, depth, lsb_first);
        let ghost before = rgba@;
        rgba.push(channels[0]);
        rgba.push(channels[1]);
        rgba.push(channels[2]);
        rgba.push(channels[3]);
        proof {
            let here = spec_pixel(data@, spec_offset(p as int, bits_per_pixel), depth, lsb_first);
            assert(reads == 0 ==> spec_pixel(data@, 0, depth, lsb_first) == here);
            assert(channels@ == here);
            let after = Seq::new(
                ((p + 1) * 4) as nat,
                |k: int| spec_pixel(data@, spec_offset(k / 4, bits_per_pixel), depth, lsb_first)[k % 4],
            );
            assert(rgba@.len() == after.len());
            assert forall|k: int| 0 <= k < after.len() implies rgba@[k] == after[k] by {
                if k < p * 4 {
                    assert(rgba@[k] == before[k]);
                } else {
                    assert(k / 4 == p);
                    assert(rgba@[k] == channels@[k % 4]);
                }
            }
            assert(rgba@ =~= after);
        }
        p += 1;
    }
    Some(rgba)
}

/// The byte that stands at `index` once red and blue have changed places in pixels
/// of three bytes each. Bytes after the last whole pixel stay where they are.
pub open spec fn spec_swapped(pixels: Seq<u8>, index: int) -> u8 {
    let channel = index % 3;
    let start = index - channel;
    if start + 3 > pixels.len() || channel == 1 {
        pixels[index]
    } else if channel == 0 {
        pixels[index + 2]
    } else {
        pixels[index - 2]
    }
}

/// Changes the places of the first and the third byte of every pixel of three bytes:
/// an image that holds blue first becomes one that holds red first, and the other
/// way round.
pub fn swap_red_and_blue(pixels: &mut Vec<u8>)
    ensures
        final(pixels)@.len() == old(pixels)@.len(),
        forall|i: int|
            0 <= i < old(pixels)@.len() ==> #[trigger] final(pixels)@[i] == spec_swapped(
                old(pixels)@,
                i,
            ),
{
    let length: usize = pixels.len();
    let whole: usize = length - length % 3;
    let mut start: usize = 0;
    while start < whole
        invariant
            length == pixels@.len(),
            length == old(pixels)@.len(),
            whole == length - length % 3,
            start <= whole,
            start % 3 == 0,
            forall|i: int| 0 <= i < start ==> #[trigger] pixels@[i] == spec_swapped(old(pixels)@, i),
            forall|i: int| start <= i < length ==> #[trigger] pixels@[i] == old(pixels)@[i],
        decreases whole - start,
    {
        let first: u8 = pixels[start];
        let third: u8 = pixels[start + 2];
        pixels.set(start, third);
        pixels.set(start + 2, first);
        start += 3;
    }
}

} // verus!
