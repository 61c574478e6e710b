use std::io::Cursor;

use sitewrap::fallback::FallbackStyle;
use sitewrap::raster::{decode_icon, fallback_canvas, render_ladder, Bitmap};

fn png_bytes(width: u32, height: u32, rgba: [u8; 4]) -> Vec<u8> {
    let img = image::RgbaImage::from_pixel(width, height, image::Rgba(rgba));
    let mut out = Cursor::new(Vec::new());
    image::DynamicImage::ImageRgba8(img)
        .write_to(&mut out, image::ImageFormat::Png)
        .unwrap();
    out.into_inner()
}

fn ico_bytes(sizes: &[(u32, u8)]) -> Vec<u8> {
    let mut dir = ico::IconDir::new(ico::ResourceType::Icon);
    for &(side, shade) in sizes {
        let rgba = vec![shade; (side * side * 4) as usize];
        let image = ico::IconImage::from_rgba_data(side, side, rgba);
        dir.add_entry(ico::IconDirEntry::encode(&image).unwrap());
    }
    let mut out = Vec::new();
    dir.write(&mut out).unwrap();
    out
}

#[test]
fn decodes_single_png() {
    let data = png_bytes(3, 2, [10, 20, 30, 255]);
    let bitmap = decode_icon(&data).unwrap();
    assert_eq!((bitmap.width, bitmap.height), (3, 2));
    assert_eq!(bitmap.rgba.len(), 24);
    assert_eq!(&bitmap.rgba[0..4], &[10, 20, 30, 255]);
}

#[test]
fn decodes_widest_ico_frame() {
    let data = ico_bytes(&[(16, 1), (48, 2), (32, 3), (48, 4)]);
    let bitmap = decode_icon(&data).unwrap();
    assert_eq!((bitmap.width, bitmap.height), (48, 48));
    assert_eq!(bitmap.rgba[0], 4);
}

#[test]
fn rejects_undecodable_bytes() {
    assert!(decode_icon(b"not an image").is_none());
}

#[test]
fn renders_seven_pngs_of_ladder_sizes() {
    let bitmap = Bitmap { width: 4, height: 4, rgba: vec![200; 64] };
    let pngs = render_ladder(&bitmap).unwrap();
    assert_eq!(pngs.len(), 7);
    let sides: Vec<u32> = pngs
        .iter()
        .map(|p| image::load_from_memory(p).unwrap().width())
        .collect();
    assert_eq!(sides, vec![16, 32, 48, 64, 128, 256, 512]);
    assert_eq!(render_ladder(&bitmap).unwrap(), pngs);
}

#[test]
fn short_pixel_buffer_renders_nothing() {
    let bitmap = Bitmap { width: 4, height: 4, rgba: vec![0; 10] };
    assert!(render_ladder(&bitmap).is_none());
}

#[test]
fn fallback_canvas_is_filled_opaque() {
    let style = FallbackStyle { glyph: 'E', red: 1, green: 2, blue: 3 };
    let canvas = fallback_canvas(&style);
    assert_eq!((canvas.width, canvas.height), (512, 512));
    assert_eq!(canvas.rgba.len(), 512 * 512 * 4);
    assert_eq!(&canvas.rgba[0..4], &[1, 2, 3, 255]);
    assert_eq!(&canvas.rgba[canvas.rgba.len() - 4..], &[1, 2, 3, 255]);
}

/// An icon directory with one BMP frame whose header claims `width` by `height / 2`
/// pixels at `bpp` bits, followed by a two-colour table and a few pixel bytes.
fn crafted_ico(width: u32, height: u32, bpp: u16) -> Vec<u8> {
    let mut frame = Vec::new();
    frame.extend_from_slice(&40u32.to_le_bytes());
    frame.extend_from_slice(&width.to_le_bytes());
    frame.extend_from_slice(&height.to_le_bytes());
    frame.extend_from_slice(&1u16.to_le_bytes());
    frame.extend_from_slice(&bpp.to_le_bytes());
    frame.extend_from_slice(&[0u8; 24]);
    frame.extend_from_slice(&[0, 0, 0, 0, 255, 255, 255, 0]);
    frame.extend_from_slice(&[0u8; 8]);
    let mut data = vec![0, 0, 1, 0, 1, 0];
    data.extend_from_slice(&[0, 0, 0, 0]);
    data.extend_from_slice(&1u16.to_le_bytes());
    data.extend_from_slice(&bpp.to_le_bytes());
    data.extend_from_slice(&(frame.len() as u32).to_le_bytes());
    data.extend_from_slice(&22u32.to_le_bytes());
    data.extend_from_slice(&frame);
    data
}

#[test]
fn oversized_bmp_frame_is_refused_without_panic() {
    let data = crafted_ico(65536, 131072, 1);
    assert!(!sitewrap::raster::frame_fits(&data, 0));
    assert!(decode_icon(&data).is_none());
}

#[test]
fn frame_check_accepts_real_frames() {
    let data = ico_bytes(&[(16, 1), (32, 3)]);
    assert!(sitewrap::raster::frame_fits(&data, 0));
    assert!(sitewrap::raster::frame_fits(&data, 1));
    assert!(!sitewrap::raster::frame_fits(&data, 2));
    let small = crafted_ico(4, 8, 1);
    assert!(sitewrap::raster::frame_fits(&small, 0));
}
