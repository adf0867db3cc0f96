//! Conversion of raw camera frames (packed RGB24 or 4:2:2 YUYV) into a dense
//! RGB24 buffer.
//!
//! The luma/chroma transform is computed in fixed point: every coefficient is
//! scaled by one million, so the result is exactly the clamped and truncated
//! value of the real-number formula.
use vstd::arithmetic::div_mod::lemma_fundamental_div_mod_converse;
use vstd::prelude::*;

verus! {

/// A frame whose byte count matches neither supported layout, or a YUYV frame
/// whose pixels cannot be grouped in pairs.
#[derive(Debug, Clone, Copy, PartialEq, Eq, Structural)]
pub enum ConvertError {
    /// The byte count is neither `width*height*3` nor `width*height*2`.
    BufferMismatch { expected_rgb: u128, expected_yuyv: u128, actual: usize },
    /// A two-bytes-per-pixel frame with an odd number of pixels: its last
    /// pixel has no chroma pair.
    UnpairedPixel { pixels: u64 },
}

/// Number of pixels of a `width` by `height` frame.
pub open spec fn pixel_count(width: u32, height: u32) -> int {
    width as int * height as int
}

/// Clamps a channel value, scaled by one million, to `[0, 255]` and truncates it.
pub open spec fn channel_of(n: int) -> int {
    if n <= 0 {
        0
    } else if n >= 255 * 1_000_000 {
        255
    } else {
        n / 1_000_000
    }
}

/// `R = Y + 1.402 (V - 128)`.
pub open spec fn red_of(y: int, v: int) -> int {
    channel_of(y * 1_000_000 + 1_402_000 * (v - 128))
}

/// `G = Y - 0.344136 (U - 128) - 0.714136 (V - 128)`.
pub open spec fn green_of(y: int, u: int, v: int) -> int {
    channel_of(y * 1_000_000 - 344_136 * (u - 128) - 714_136 * (v - 128))
}

/// `B = Y + 1.772 (U - 128)`.
pub open spec fn blue_of(y: int, u: int) -> int {
    channel_of(y * 1_000_000 + 1_772_000 * (u - 128))
}

/// Byte `k` of the RGB image decoded from the YUYV bytes `s`: each group
/// `(Y0, U, Y1, V)` gives the pixels `(Y0, U, V)` and `(Y1, U, V)`.
pub open spec fn yuyv_byte(s: Seq<u8>, k: int) -> u8 {
    let g = k / 6;
    let j = k % 6;
    let y = s[4 * g + 2 * (j / 3)] as int;
    let u = s[4 * g + 1] as int;
    let v = s[4 * g + 3] as int;
    (if j % 3 == 0 {
        red_of(y, v)
    } else if j % 3 == 1 {
        green_of(y, u, v)
    } else {
        blue_of(y, u)
    }) as u8
}

/// The RGB image decoded from the complete 4-byte groups of `s`.
pub open spec fn yuyv_to_rgb(s: Seq<u8>) -> Seq<u8> {
    Seq::new(((s.len() / 4) * 6) as nat, |k: int| yuyv_byte(s, k))
}

/// What `convert` yields for a frame of `width` by `height` pixels.
pub open spec fn converted(bytes: Seq<u8>, width: u32, height: u32) -> Result<Seq<u8>, ConvertError> {
    let n = pixel_count(width, height);
    if bytes.len() == n * 3 {
        Ok(bytes)
    } else if bytes.len() == n * 2 {
        if n % 2 == 0 {
            Ok(yuyv_to_rgb(bytes))
        } else {
            Err(ConvertError::UnpairedPixel { pixels: n as u64 })
        }
    } else {
        Err(ConvertError::BufferMismatch {
            expected_rgb: (n * 3) as u128,
            expected_yuyv: (n * 2) as u128,
            actual: bytes.len() as usize,
        })
    }
}

/// Clamps and truncates one channel given scaled by one million.
fn clamp_channel(n: i64) -> (r: u8)
    ensures
        r as int == channel_of(n as int),
{
    if n <= 0 {
        0
    } else if n >= 255_000_000 {
        255
    } else {
        (n / 1_000_000) as u8
    }
}

/// Decodes the pixel `(y, u, v)` into its red, green and blue bytes.
fn yuv_pixel(y: u8, u: u8, v: u8) -> (r: (u8, u8, u8))
    ensures
        r.0 as int == red_of(y as int, v as int),
        r.1 as int == green_of(y as int, u as int, v as int),
        r.2 as int == blue_of(y as int, u as int),
{
    let luma = (y as i64) * 1_000_000;
    let cu = (u as i64) - 128;
    let cv = (v as i64) - 128;
    let red = clamp_channel(luma + 1_402_000 * cv);
    let green = clamp_channel(luma - 344_136 * cu - 714_136 * cv);
    let blue = clamp_channel(luma + 1_772_000 * cu);
    (red, green, blue)
}

proof fn lemma_group_index(g: int, j: int)
    requires
        0 <= g,
        0 <= j < 6,
    ensures
        (6 * g + j) / 6 == g,
        (6 * g + j) % 6 == j,
{
    lemma_fundamental_div_mod_converse(6 * g + j, 6, g, j);
}

/// Decodes every complete 4-byte group `(Y0, U, Y1, V)` of a YUYV buffer into
/// two RGB pixels.
pub fn yuyv_to_rgb24(bytes: &Vec<u8>) -> (out: Vec<u8>)
    ensures
        out@ == yuyv_to_rgb(bytes@),
{
    let n: usize = bytes.len();
    let groups: usize = n / 4;
    let mut out: Vec<u8> = Vec::new();
    let mut g: usize = 0;
    while g < groups
        invariant
            n == bytes@.len(),
            groups == n / 4,
            g <= groups,
            out@.len() == 6 * g,
            forall|k: int| 0 <= k < 6 * g ==> out@[k] == #[trigger] yuyv_byte(bytes@, k),
        decreases groups - g,
    {
        assert(4 * g + 4 <= n);
        let base: usize = 4 * g;
        let y0 = bytes[base];
        let u = bytes[base + 1];
        let y1 = bytes[base + 2];
        let v = bytes[base + 3];
        let p0 = yuv_pixel(y0, u, v);
        let p1 = yuv_pixel(y1, u, v);
        out.push(p0.0);
        out.push(p0.1);
        out.push(p0.2);
        out.push(p1.0);
        out.push(p1.1);
        out.push(p1.2);
        proof {
            assert forall|j: int| 0 <= j < 6 implies out@[6 * g + j] == #[trigger] yuyv_byte(
                bytes@,
                6 * g + j,
            ) by {
                lemma_group_index(g as int, j);
            }
            assert forall|k: int| 0 <= k < 6 * (g + 1) implies out@[k] == #[trigger] yuyv_byte(
                bytes@,
                k,
            ) by {
                if k >= 6 * g {
                    assert(out@[6 * g + (k - 6 * g)] == yuyv_byte(bytes@, 6 * g + (k - 6 * g)));
                }
            }
        }
        g = g + 1;
    }
    assert(out@ =~= yuyv_to_rgb(bytes@));
    out
}

/// Turns a raw frame into a dense RGB24 buffer: an RGB24 frame is handed back
/// as it is, a YUYV frame is decoded, and any other byte count is refused.
pub fn convert(bytes: Vec<u8>, width: u32, height: u32) -> (r: Result<Vec<u8>, ConvertError>)
    ensures
        match (r, converted(bytes@, width, height)) {
            (Ok(out), Ok(expected)) => out@ == expected,
            (Err(e), Err(expected)) => e == expected,
            _ => false,
        },
{
    assert(width as int * height as int <= 0xffff_ffff * 0xffff_ffff) by (nonlinear_arith)
        requires
            width <= 0xffff_ffff,
            height <= 0xffff_ffff,
    ;
    let pixels: u64 = (width as u64) * (height as u64);
    let rgb_len: u128 = (pixels as u128) * 3;
    let yuyv_len: u128 = (pixels as u128) * 2;
    let actual: usize = bytes.len();
    if actual as u128 == rgb_len {
        Ok(bytes)
    } else if actual as u128 == yuyv_len {
        if pixels % 2 == 0 {
            Ok(yuyv_to_rgb24(&bytes))
        } else {
            Err(ConvertError::UnpairedPixel { pixels })
        }
    } else {
        Err(ConvertError::BufferMismatch { expected_rgb: rgb_len, expected_yuyv: yuyv_len, actual })
    }
}

/// A frame of exactly `width*height*3` bytes is already RGB24: conversion
/// hands it back unchanged.
pub proof fn lemma_rgb_frame_unchanged(bytes: Seq<u8>, width: u32, height: u32)
    requires
        bytes.len() == pixel_count(width, height) * 3,
    ensures
        converted(bytes, width, height) == Ok::<Seq<u8>, ConvertError>(bytes),
{
}

/// A frame of exactly `width*height*2` bytes with pixels in pairs converts to
/// `width*height*3` bytes, each a channel value clamped to `[0, 255]`.
pub proof fn lemma_yuyv_frame_size(bytes: Seq<u8>, width: u32, height: u32)
    requires
        bytes.len() == pixel_count(width, height) * 2,
        pixel_count(width, height) % 2 == 0,
    ensures
        converted(bytes, width, height) is Ok,
        converted(bytes, width, height)->Ok_0.len() == pixel_count(width, height) * 3,
        forall|k: int|
            0 <= k < pixel_count(width, height) * 3 ==> 0 <= #[trigger] converted(
                bytes,
                width,
                height,
            )->Ok_0[k] <= 255,
{
    let n = pixel_count(width, height);
    if bytes.len() != n * 3 {
        let m = n / 2;
        assert(bytes.len() == 4 * m);
        assert(bytes.len() / 4 == m);
    }
}

/// A frame whose byte count fits neither layout is refused with the byte
/// counts of both layouts and its own; no image is produced.
pub proof fn lemma_mismatched_frame_refused(bytes: Seq<u8>, width: u32, height: u32)
    requires
        bytes.len() != pixel_count(width, height) * 3,
        bytes.len() != pixel_count(width, height) * 2,
    ensures
        converted(bytes, width, height) == Err::<Seq<u8>, ConvertError>(
            ConvertError::BufferMismatch {
                expected_rgb: (pixel_count(width, height) * 3) as u128,
                expected_yuyv: (pixel_count(width, height) * 2) as u128,
                actual: bytes.len() as usize,
            },
        ),
{
}

} // verus!
