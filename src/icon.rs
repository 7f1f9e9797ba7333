//! The 48×48 icon bitmap and the decoder of its tile-ordered raw form.

use vstd::prelude::*;
use crate::color::{Rgb565, rgb565_of};
use crate::error::ParseError;
use vstd::arithmetic::div_mod::{lemma_fundamental_div_mod, lemma_fundamental_div_mod_converse};


verus! {

/// Number of packed samples in a raw icon.
pub const ICON_SAMPLES: usize = 2304;

/// Number of bytes in a raw icon.
pub const RAW_ICON_LEN: usize = 4608;

/// One pixel of the bitmap.
#[derive(Clone, Copy, Debug, PartialEq, Eq, Structural)]
pub struct Rgba {
    pub r: u8,
    pub g: u8,
    pub b: u8,
    pub a: u8,
}

/// A 48×48 bitmap, row by row from the top left.
#[derive(Clone, Debug)]
pub struct IconBitmap {
    pixels: Vec<Rgba>,
}

impl View for IconBitmap {
    type V = Seq<Rgba>;

    closed spec fn view(&self) -> Seq<Rgba> {
        self.pixels@
    }
}

/// Where, within an 8×8 tile, each of its 64 stored samples goes: `y * 8 + x`.
pub open spec fn tile_order() -> Seq<u8> {
    seq![
        0u8, 1, 8, 9, 2, 3, 10, 11, 16, 17, 24, 25, 18, 19, 26, 27,
        4, 5, 12, 13, 6, 7, 14, 15, 20, 21, 28, 29, 22, 23, 30, 31,
        32, 33, 40, 41, 34, 35, 42, 43, 48, 49, 56, 57, 50, 51, 58, 59,
        36, 37, 44, 45, 38, 39, 46, 47, 52, 53, 60, 61, 54, 55, 62, 63,
    ]
}

/// Which stored sample of a tile lands on each tile-local position `y * 8 + x`.
pub open spec fn tile_order_inverse() -> Seq<u8> {
    seq![
        0u8, 1, 4, 5, 16, 17, 20, 21, 2, 3, 6, 7, 18, 19, 22, 23,
        8, 9, 12, 13, 24, 25, 28, 29, 10, 11, 14, 15, 26, 27, 30, 31,
        32, 33, 36, 37, 48, 49, 52, 53, 34, 35, 38, 39, 50, 51, 54, 55,
        40, 41, 44, 45, 56, 57, 60, 61, 42, 43, 46, 47, 58, 59, 62, 63,
    ]
}

/// The packed sample with index `s`, little-endian.
pub open spec fn sample(raw: Seq<u8>, s: int) -> u16 {
    (raw[2 * s] as int + raw[2 * s + 1] as int * 256) as u16
}

/// The pixel, `y * 48 + x`, that sample `s` is drawn to: tiles are stored row by row,
/// six to a row, and the samples of a tile in the order of `tile_order`.
pub open spec fn pixel_of_sample(s: int) -> int {
    let tile = s / 64;
    let t = tile_order()[s % 64] as int;
    (t / 8 + (tile / 6) * 8) * 48 + t % 8 + (tile % 6) * 8
}

/// The sample that is drawn to pixel `j`.
pub open spec fn sample_of_pixel(j: int) -> int {
    let x = j % 48;
    let y = j / 48;
    ((y / 8) * 6 + x / 8) * 64 + tile_order_inverse()[(y % 8) * 8 + x % 8] as int
}

/// An opaque pixel of the given colour.
pub open spec fn opaque(c: Rgb565) -> Rgba {
    Rgba { r: c.r, g: c.g, b: c.b, a: 255 }
}

/// The opaque pixel that sample `s` of a raw icon decodes to.
pub open spec fn sample_pixel(raw: Seq<u8>, s: int) -> Rgba {
    opaque(rgb565_of(sample(raw, s)))
}

/// The bitmap that a raw icon stands for.
pub open spec fn icon_pixels(raw: Seq<u8>) -> Seq<Rgba> {
    Seq::new(2304, |j: int| sample_pixel(raw, sample_of_pixel(j)))
}

/// The two tile tables undo each other.
pub proof fn lemma_tile_order_inverse(l: int)
    requires
        0 <= l < 64,
    ensures
        tile_order_inverse()[l] < 64,
        tile_order()[tile_order_inverse()[l] as int] == l,
        tile_order()[l] < 64,
        tile_order_inverse()[tile_order()[l] as int] == l,
{
}


/// Pixel `j` is drawn by exactly one sample, and that sample lies in the raw icon.
pub proof fn lemma_sample_of_pixel(j: int)
    requires
        0 <= j < 2304,
    ensures
        0 <= sample_of_pixel(j) < 2304,
        pixel_of_sample(sample_of_pixel(j)) == j,
{
    let x = j % 48;
    let y = j / 48;
    let l = (y % 8) * 8 + x % 8;
    lemma_tile_order_inverse(l);
    let k = tile_order_inverse()[l] as int;
    let tile = (y / 8) * 6 + x / 8;
    let s = tile * 64 + k;
    assert(0 <= y < 48 && 0 <= x < 48);
    assert(0 <= tile < 36);
    lemma_fundamental_div_mod_converse(s, 64, tile, k);
    lemma_fundamental_div_mod_converse(l, 8, y % 8, x % 8);
    lemma_fundamental_div_mod_converse(tile, 6, y / 8, x / 8);
    lemma_fundamental_div_mod(j, 48);
    lemma_fundamental_div_mod(y, 8);
    lemma_fundamental_div_mod(x, 8);
    assert(sample_of_pixel(j) == s);
    assert(pixel_of_sample(s) == (y % 8 + (y / 8) * 8) * 48 + x % 8 + (x / 8) * 8);
}

/// Sample `s` of a raw icon is drawn to a pixel of the bitmap, which it alone draws.
pub proof fn lemma_pixel_of_sample(s: int)
    requires
        0 <= s < 2304,
    ensures
        0 <= pixel_of_sample(s) < 2304,
        sample_of_pixel(pixel_of_sample(s)) == s,
{
    let tile = s / 64;
    let k = s % 64;
    lemma_fundamental_div_mod(s, 64);
    lemma_tile_order_inverse(k);
    let t = tile_order()[k] as int;
    let ty = tile / 6;
    let tx = tile % 6;
    lemma_fundamental_div_mod(tile, 6);
    lemma_fundamental_div_mod(t, 8);
    let x = t % 8 + tx * 8;
    let y = t / 8 + ty * 8;
    assert(0 <= tile < 36);
    assert(0 <= x < 48 && 0 <= y < 48);
    let j = y * 48 + x;
    assert(pixel_of_sample(s) == j);
    lemma_fundamental_div_mod_converse(j, 48, y, x);
    lemma_fundamental_div_mod_converse(x, 8, tx, t % 8);
    lemma_fundamental_div_mod_converse(y, 8, ty, t / 8);
    assert(sample_of_pixel(j) == (ty * 6 + tx) * 64 + tile_order_inverse()[t] as int);
}

/// A raw icon whose samples all hold one packed colour decodes to a bitmap whose
/// pixels are all that colour, opaque.
pub proof fn lemma_uniform_icon(raw: Seq<u8>, v: u16)
    requires
        raw.len() == 4608,
        forall|s: int| 0 <= s < 2304 ==> sample(raw, s) == v,
    ensures
        icon_pixels(raw).len() == 2304,
        forall|j: int| 0 <= j < 2304 ==> icon_pixels(raw)[j] == opaque(rgb565_of(v))
            && icon_pixels(raw)[j].a == 255,
{
    assert forall|j: int| 0 <= j < 2304 implies icon_pixels(raw)[j] == opaque(rgb565_of(v)) by {
        lemma_sample_of_pixel(j);
    }
}

impl IconBitmap {
    /// The pixel at column `x` and row `y`.
    pub fn pixel(&self, x: usize, y: usize) -> (p: Rgba)
        requires
            x < 48,
            y < 48,
            self@.len() == 2304,
        ensures
            p == self@[y * 48 + x],
    {
        self.pixels[y * 48 + x]
    }

    /// A copy of the bitmap.
    pub fn duplicate(&self) -> (r: IconBitmap)
        ensures
            r@ == self@,
    {
        let mut pixels: Vec<Rgba> = Vec::new();
        let mut i: usize = 0;
        while i < self.pixels.len()
            invariant
                i <= self.pixels@.len(),
                pixels@ == self.pixels@.subrange(0, i as int),
            decreases self.pixels@.len() - i,
        {
            pixels.push(self.pixels[i]);
            i = i + 1;
            assert(pixels@ =~= self.pixels@.subrange(0, i as int));
        }
        assert(pixels@ =~= self.pixels@);
        IconBitmap { pixels }
    }

    /// The pixels, row by row from the top left.
    pub fn pixels(&self) -> (r: &Vec<Rgba>)
        ensures
            r@ == self@,
    {
        &self.pixels
    }
}

/// Decodes a raw icon: 2304 little-endian packed samples, tile after tile.
/// Fails with `IOFailure` unless the buffer holds exactly 4608 bytes.
pub fn decode_icon(raw: &[u8]) -> (r: Result<IconBitmap, ParseError>)
    ensures
        r is Ok <==> raw@.len() == 4608,
        r is Err ==> r == Err::<IconBitmap, ParseError>(ParseError::IOFailure),
        r matches Ok(bm) ==> bm@ == icon_pixels(raw@),
{
    if raw.len() != RAW_ICON_LEN {
        return Err(ParseError::IOFailure);
    }
    let table: [u8; 64] = [
        0, 1, 8, 9, 2, 3, 10, 11, 16, 17, 24, 25, 18, 19, 26, 27,
        4, 5, 12, 13, 6, 7, 14, 15, 20, 21, 28, 29, 22, 23, 30, 31,
        32, 33, 40, 41, 34, 35, 42, 43, 48, 49, 56, 57, 50, 51, 58, 59,
        36, 37, 44, 45, 38, 39, 46, 47, 52, 53, 60, 61, 54, 55, 62, 63,
    ];
    assert(table@ =~= tile_order());
    let mut pixels: Vec<Rgba> = Vec::new();
    let mut i: usize = 0;
    while i < ICON_SAMPLES
        invariant
            i <= 2304,
            pixels@.len() == i,
        decreases 2304 - i,
    {
        pixels.push(Rgba { r: 0, g: 0, b: 0, a: 255 });
        i = i + 1;
    }
    let mut pos: usize = 0;
    let mut tile_y: usize = 0;
    while tile_y < 6
        invariant
            tile_y <= 6,
            pos == tile_y * 6 * 64,
            raw@.len() == 4608,
            table@ == tile_order(),
            pixels@.len() == 2304,
            forall|j: int| 0 <= j < 2304 && sample_of_pixel(j) < pos ==>
                pixels@[j] == sample_pixel(raw@, sample_of_pixel(j)),
        decreases 6 - tile_y,
    {
        let mut tile_x: usize = 0;
        while tile_x < 6
            invariant
                tile_y < 6,
                tile_x <= 6,
                pos == (tile_y * 6 + tile_x) * 64,
                raw@.len() == 4608,
                table@ == tile_order(),
                pixels@.len() == 2304,
                forall|j: int| 0 <= j < 2304 && sample_of_pixel(j) < pos ==>
                    pixels@[j] == sample_pixel(raw@, sample_of_pixel(j)),
            decreases 6 - tile_x,
        {
            let mut k: usize = 0;
            while k < 64
                invariant
                    tile_y < 6,
                    tile_x < 6,
                    k <= 64,
                    pos == (tile_y * 6 + tile_x) * 64 + k,
                    raw@.len() == 4608,
                    table@ == tile_order(),
                    pixels@.len() == 2304,
                    forall|j: int| 0 <= j < 2304 && sample_of_pixel(j) < pos ==>
                        pixels@[j] == sample_pixel(raw@, sample_of_pixel(j)),
                decreases 64 - k,
            {
                let t: u8 = table[k];
                let x: usize = (t & 7) as usize + tile_x * 8;
                let y: usize = (t >> 3) as usize + tile_y * 8;
                proof {
                    assert(t & 7 == t % 8) by (bit_vector);
                    assert(t >> 3 == t / 8) by (bit_vector);
                    lemma_tile_order_inverse(k as int);
                    lemma_fundamental_div_mod_converse(pos as int, 64, (tile_y * 6 + tile_x) as int, k as int);
                    lemma_fundamental_div_mod_converse((tile_y * 6 + tile_x) as int, 6, tile_y as int, tile_x as int);
                    assert(pixel_of_sample(pos as int) == y * 48 + x);
                    lemma_pixel_of_sample(pos as int);
                }
                let v: u16 = raw[2 * pos] as u16 + raw[2 * pos + 1] as u16 * 256;
                let c = Rgb565::from_packed(v);
                let idx: usize = y * 48 + x;
                let ghost before = pixels@;
                pixels.set(idx, Rgba { r: c.r, g: c.g, b: c.b, a: 255 });
                proof {
                    assert(v == sample(raw@, pos as int));
                    assert(pixels@[idx as int] == sample_pixel(raw@, pos as int));
                    assert forall|j: int| 0 <= j < 2304 && sample_of_pixel(j) < pos + 1 implies
                        pixels@[j] == sample_pixel(raw@, sample_of_pixel(j)) by {
                        lemma_sample_of_pixel(j);
                        if j != idx {
                            assert(pixels@[j] == before[j]);
                        }
                    }
                }
                pos = pos + 1;
                k = k + 1;
            }
            tile_x = tile_x + 1;
        }
        tile_y = tile_y + 1;
    }
    proof {
        assert forall|j: int| 0 <= j < 2304 implies pixels@[j] == icon_pixels(raw@)[j] by {
            lemma_sample_of_pixel(j);
        }
        assert(pixels@ =~= icon_pixels(raw@));
    }
    Ok(IconBitmap { pixels })
}

} // verus!
