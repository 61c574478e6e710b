//! Decoding downloaded icons and rendering the size ladder as PNG bytes.

use std::io::Cursor;

use image::imageops::FilterType;
use vstd::prelude::*;

use crate::fallback::FallbackStyle;
use crate::icons::{is_last_widest, ladder_size, widest_frame, LADDER_LEN};

verus! {

/// An RGBA image, four bytes per pixel, row by row.
#[derive(Clone, Debug)]
pub struct Bitmap {
    pub width: u32,
    pub height: u32,
    pub rgba: Vec<u8>,
}

/// A decoded image as plain values: width, height and RGBA bytes.
pub open spec fn bitmap_view(b: Option<Bitmap>) -> Option<(u32, u32, Seq<u8>)> {
    match b {
        Some(b) => Some((b.width, b.height, b.rgba@)),
        None => None,
    }
}

pub open spec fn bytes_view(b: Option<Vec<u8>>) -> Option<Seq<u8>> {
    match b {
        Some(v) => Some(v@),
        None => None,
    }
}

/// The frame widths of `data` read as an icon directory (ICO family), or `None` where it
/// is not one.
pub uninterp spec fn ico_widths(data: Seq<u8>) -> Option<Seq<u32>>;

/// The frame at `index` of the icon directory `data`, decoded to RGBA.
pub uninterp spec fn ico_frame(data: Seq<u8>, index: nat) -> Option<(u32, u32, Seq<u8>)>;

/// `data` decoded as a single image of the format its bytes announce, as RGBA.
pub uninterp spec fn guessed_decode(data: Seq<u8>) -> Option<(u32, u32, Seq<u8>)>;

/// The RGBA image (`width` by `height`, bytes `rgba`) resized to `size` by `size` with a
/// Lanczos-3 filter and encoded as PNG; `None` where the bytes do not fill the image.
pub uninterp spec fn png_resized(width: u32, height: u32, rgba: Seq<u8>, size: u32) -> Option<Seq<u8>>;

/// Relies on `ico::IconDir::read` and `IconDirEntry::width`.
#[verifier::external_body]
fn read_ico_widths(data: &[u8]) -> (r: Option<Vec<u32>>)
    ensures
        match r {
            Some(v) => ico_widths(data@) == Some(v@),
            None => ico_widths(data@) is None,
        },
{
    match ico::IconDir::read(Cursor::new(data)) {
        Ok(dir) => Some(dir.entries().iter().map(|e| e.width()).collect()),
        Err(_) => None,
    }
}

/// The little-endian value of the two bytes of `d` at `at`.
pub open spec fn le16(d: Seq<u8>, at: int) -> int {
    d[at] + 256 * d[at + 1]
}

/// The little-endian value of the four bytes of `d` at `at`.
pub open spec fn le32(d: Seq<u8>, at: int) -> int {
    le16(d, at) + 65536 * le16(d, at + 2)
}

/// Frame data that starts with the PNG signature bytes `89 50 4E 47`.
pub open spec fn is_png_frame(f: Seq<u8>) -> bool {
    f.len() >= 4 && f[0] == 0x89 && f[1] == 0x50 && f[2] == 0x4e && f[3] == 0x47
}

/// A BMP frame whose info header (width at byte 4, doubled height at byte 8, bits per
/// pixel at byte 14) keeps the decoder's pixel arithmetic within `u32`, and whose pixel
/// count is covered by its own bytes at one bit per pixel or more.
pub open spec fn bmp_header_fits(f: Seq<u8>) -> bool {
    f.len() >= 16 && {
        let w = le32(f, 4);
        let doubled = le32(f, 8);
        let bpp = le16(f, 14);
        let h = doubled / 2;
        &&& w <= 0x7fff_ffff
        &&& doubled <= 0x7fff_ffff
        &&& w * h * 4 <= 0xffff_ffff
        &&& w * bpp + 7 <= 0xffff_ffff
        &&& w * h <= 8 * f.len()
    }
}

/// The frame at `index` of the icon directory `data` lies within `data` and can be
/// decoded without overflow: it is PNG-encoded, or its BMP header fits.
pub open spec fn bmp_frame_fits(data: Seq<u8>, index: nat) -> bool {
    let e: int = 6 + 16 * (index as int);
    e + 16 <= data.len() && {
        let size = le32(data, e + 8);
        let off = le32(data, e + 12);
        off + size <= data.len() && {
            let f = data.subrange(off, off + size);
            is_png_frame(f) || bmp_header_fits(f)
        }
    }
}

fn read_le16(d: &[u8], at: usize) -> (r: u64)
    requires
        at + 2 <= d@.len(),
    ensures
        r == le16(d@, at as int),
        r <= 0xffff,
{
    d[at] as u64 + 256 * (d[at + 1] as u64)
}

fn read_le32(d: &[u8], at: usize) -> (r: u64)
    requires
        at + 4 <= d@.len(),
    ensures
        r == le32(d@, at as int),
        r <= 0xffff_ffff,
{
    let n = d.len();
    assert(at + 4 <= n);
    let low = read_le16(d, at);
    let high = read_le16(d, at + 2);
    assert(65536 * high <= 0xffff_0000) by (nonlinear_arith)
        requires
            high <= 0xffff,
    ;
    low + 65536 * high
}

/// Whether the frame at `index` of the icon directory `data` can be decoded safely.
pub fn frame_fits(data: &[u8], index: usize) -> (r: bool)
    ensures
        r == bmp_frame_fits(data@, index as nat),
{
    let n = data.len();
    if n < 22 || index > (n - 22) / 16 {
        proof {
            if n >= 22 {
                assert(6 + 16 * index + 16 > n) by (nonlinear_arith)
                    requires
                        index > (n - 22) / 16,
                        n >= 22,
                ;
            }
        }
        return false;
    }
    assert(6 + 16 * index + 16 <= n) by (nonlinear_arith)
        requires
            index <= (n - 22) / 16,
            n >= 22,
    ;
    let e: usize = 6 + 16 * index;
    let size = read_le32(data, e + 8);
    let off = read_le32(data, e + 12);
    if off + size > n as u64 {
        return false;
    }
    let start = off as usize;
    let end = (off + size) as usize;
    let ghost f = data@.subrange(start as int, end as int);
    let len = end - start;
    if len >= 4 && data[start] == 0x89 && data[start + 1] == 0x50 && data[start + 2] == 0x4e
        && data[start + 3] == 0x47 {
        return true;
    }
    assert(!is_png_frame(f));
    if len < 16 {
        return false;
    }
    let w = read_le32(data, start + 4);
    let doubled = read_le32(data, start + 8);
    let bpp = read_le16(data, start + 14);
    assert(w == le32(f, 4) && doubled == le32(f, 8) && bpp == le16(f, 14));
    if w > 0x7fff_ffff || doubled > 0x7fff_ffff {
        return false;
    }
    let h = doubled / 2;
    assert(w * h < 0x4000_0000_0000_0000) by (nonlinear_arith)
        requires
            w <= 0x7fff_ffff,
            h <= 0x7fff_ffff,
    ;
    assert(w * bpp < 0x1_0000_0000_0000) by (nonlinear_arith)
        requires
            w <= 0x7fff_ffff,
            bpp <= 0xffff,
    ;
    let area = w * h;
    area * 4 <= 0xffff_ffff && w * bpp + 7 <= 0xffff_ffff && area <= 8 * (len as u64)
}

/// Relies on `ico::IconDir::read` and `IconDirEntry::decode` of the frame at `index`,
/// read back with `IconImage::width`, `height` and `rgba_data`. A BMP frame whose
/// header overflows the decoder's `u32` pixel arithmetic makes `decode` panic, hence
/// the `requires`.
#[verifier::external_body]
fn decode_ico_frame(data: &[u8], index: usize) -> (r: Option<Bitmap>)
    requires
        bmp_frame_fits(data@, index as nat),
    ensures
        bitmap_view(r) == ico_frame(data@, index as nat),
{
    let dir = ico::IconDir::read(Cursor::new(data)).ok()?;
    let frame = dir.entries().get(index)?.decode().ok()?;
    Some(Bitmap { width: frame.width(), height: frame.height(), rgba: frame.rgba_data().to_vec() })
}

/// Relies on `image::ImageReader::with_guessed_format` and `decode`, converted with
/// `to_rgba8`.
#[verifier::external_body]
fn decode_guessed(data: &[u8]) -> (r: Option<Bitmap>)
    ensures
        bitmap_view(r) == guessed_decode(data@),
{
    let reader = image::ImageReader::new(Cursor::new(data)).with_guessed_format().ok()?;
    let img = reader.decode().ok()?.to_rgba8();
    Some(Bitmap { width: img.width(), height: img.height(), rgba: img.into_raw() })
}

/// Relies on `image::RgbaImage::from_raw`, `DynamicImage::resize_exact` with
/// `FilterType::Lanczos3`, and `DynamicImage::write_to` with `ImageFormat::Png`.
#[verifier::external_body]
fn encode_resized_png(bitmap: &Bitmap, size: u32) -> (r: Option<Vec<u8>>)
    ensures
        bytes_view(r) == png_resized(bitmap.width, bitmap.height, bitmap.rgba@, size),
{
    let img = image::RgbaImage::from_raw(bitmap.width, bitmap.height, bitmap.rgba.clone())?;
    let resized = image::DynamicImage::ImageRgba8(img).resize_exact(size, size, FilterType::Lanczos3);
    let mut out = Cursor::new(Vec::new());
    resized.write_to(&mut out, image::ImageFormat::Png).ok()?;
    Some(out.into_inner())
}

/// What a downloaded icon decodes to: the widest frame (the last of equally wide ones) of
/// an icon directory with frames, or nothing where that frame cannot be decoded safely;
/// else the bytes as a single image.
pub open spec fn decoded_icon(data: Seq<u8>) -> Option<(u32, u32, Seq<u8>)> {
    match ico_widths(data) {
        Some(ws) => if ws.len() > 0 {
            let k = (choose|i: int| is_last_widest(ws, i)) as nat;
            if bmp_frame_fits(data, k) {
                ico_frame(data, k)
            } else {
                None
            }
        } else {
            guessed_decode(data)
        },
        None => guessed_decode(data),
    }
}

proof fn lemma_last_widest_unique(ws: Seq<u32>, i: int, j: int)
    requires
        is_last_widest(ws, i),
        is_last_widest(ws, j),
    ensures
        i == j,
{
    if i < j {
        assert(ws[j] < ws[i]);
        assert(ws[i] <= ws[j]);
    } else if j < i {
        assert(ws[i] < ws[j]);
        assert(ws[j] <= ws[i]);
    }
}

/// Decodes a downloaded icon.
pub fn decode_icon(data: &[u8]) -> (r: Option<Bitmap>)
    ensures
        bitmap_view(r) == decoded_icon(data@),
{
    match read_ico_widths(data) {
        Some(widths) => match widest_frame(&widths) {
            Some(i) => {
                proof {
                    let c = choose|k: int| is_last_widest(widths@, k);
                    lemma_last_widest_unique(widths@, i as int, c);
                }
                if frame_fits(data, i) {
                    decode_ico_frame(data, i)
                } else {
                    None
                }
            },
            None => decode_guessed(data),
        },
        None => decode_guessed(data),
    }
}

/// The PNG files of the ladder for `bitmap`, smallest first, where every size encodes.
pub open spec fn ladder_pngs(bitmap: (u32, u32, Seq<u8>)) -> Option<Seq<Seq<u8>>> {
    if forall|i: int| 0 <= i < LADDER_LEN ==> (#[trigger] png_resized(bitmap.0, bitmap.1, bitmap.2, ladder_size(i))) is Some {
        Some(Seq::new(LADDER_LEN as nat, |i: int| png_resized(bitmap.0, bitmap.1, bitmap.2, ladder_size(i))->Some_0))
    } else {
        None
    }
}

/// Renders the seven ladder sizes of `bitmap` as PNG bytes; `None` where any of them
/// fails.
pub fn render_ladder(bitmap: &Bitmap) -> (r: Option<Vec<Vec<u8>>>)
    ensures
        match r {
            Some(v) => ladder_pngs((bitmap.width, bitmap.height, bitmap.rgba@)) == Some(v@.map_values(|b: Vec<u8>| b@)),
            None => ladder_pngs((bitmap.width, bitmap.height, bitmap.rgba@)) is None,
        },
{
    let ghost w = bitmap.width;
    let ghost h = bitmap.height;
    let ghost px = bitmap.rgba@;
    let mut out: Vec<Vec<u8>> = Vec::new();
    let mut i: usize = 0;
    while i < LADDER_LEN
        invariant
            i <= LADDER_LEN,
            out@.len() == i,
            w == bitmap.width && h == bitmap.height && px == bitmap.rgba@,
            forall|k: int| 0 <= k < i ==> png_resized(w, h, px, ladder_size(k)) == Some((#[trigger] out@[k])@),
        decreases LADDER_LEN - i,
    {
        match encode_resized_png(bitmap, crate::icons::icon_size(i)) {
            Some(png) => out.push(png),
            None => {
                assert(png_resized(w, h, px, ladder_size(i as int)) is None);
                return None;
            },
        }
        i = i + 1;
    }
    assert forall|k: int| 0 <= k < LADDER_LEN implies (#[trigger] png_resized(w, h, px, ladder_size(k))) is Some by {
        assert(png_resized(w, h, px, ladder_size(k)) == Some(out@[k]@));
    }
    assert(out@.map_values(|b: Vec<u8>| b@) =~= Seq::new(LADDER_LEN as nat, |k: int| png_resized(w, h, px, ladder_size(k))->Some_0));
    Some(out)
}

/// The side of the fallback canvas, in pixels.
pub const CANVAS_SIDE: u32 = 512;

/// The red, green, blue and alpha bytes of pixel `q` of RGBA bytes `s`.
pub open spec fn pixel(s: Seq<u8>, q: int) -> (u8, u8, u8, u8) {
    (s[4 * q], s[4 * q + 1], s[4 * q + 2], s[4 * q + 3])
}

/// A `CANVAS_SIDE`-square canvas filled with the style's opaque background colour.
pub fn fallback_canvas(style: &FallbackStyle) -> (r: Bitmap)
    ensures
        r.width == CANVAS_SIDE,
        r.height == CANVAS_SIDE,
        r.rgba@.len() == 4 * CANVAS_SIDE * CANVAS_SIDE,
        forall|q: int|
            0 <= q < CANVAS_SIDE * CANVAS_SIDE ==> #[trigger] pixel(r.rgba@, q) == (style.red, style.green, style.blue, 255u8),
{
    let total: usize = 512 * 512;
    let mut rgba: Vec<u8> = Vec::new();
    let mut p: usize = 0;
    while p < total
        invariant
            total == CANVAS_SIDE * CANVAS_SIDE,
            p <= total,
            rgba@.len() == 4 * p,
            forall|q: int| 0 <= q < p ==> #[trigger] pixel(rgba@, q) == (style.red, style.green, style.blue, 255u8),
        decreases total - p,
    {
        let ghost before = rgba@;
        rgba.push(style.red);
        rgba.push(style.green);
        rgba.push(style.blue);
        rgba.push(255);
        proof {
            assert(rgba@ =~= before + seq![style.red, style.green, style.blue, 255u8]);
            assert forall|q: int| 0 <= q < p + 1 implies #[trigger] pixel(rgba@, q) == (style.red, style.green, style.blue, 255u8) by {
                if q < p {
                    assert(pixel(before, q) == (style.red, style.green, style.blue, 255u8));
                    assert(pixel(rgba@, q) == pixel(before, q));
                }
            }
        }
        p = p + 1;
    }
    Bitmap { width: CANVAS_SIDE, height: CANVAS_SIDE, rgba }
}

} // verus!
