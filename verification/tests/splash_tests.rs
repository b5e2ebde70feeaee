use std::io::Cursor;

use splash_installer::splash::decode_splash;
use splash_installer::splash::premultiply_bgra;

fn encode_png(width: u32, height: u32, rgba: Vec<u8>) -> Vec<u8> {
    let img = image::RgbaImage::from_raw(width, height, rgba).unwrap();
    let dynimg = image::DynamicImage::ImageRgba8(img);
    let mut buf: Vec<u8> = Vec::new();
    dynimg.write_to(&mut Cursor::new(&mut buf), image::ImageFormat::Png).unwrap();
    buf
}

#[test]
fn decode_converts_to_premultiplied_bgra() {
    // Two pixels: one fully opaque, one half transparent.
    let rgba = vec![
        100u8, 150, 200, 255, // pixel 0: R, G, B, A
        100, 150, 200, 128, // pixel 1
    ];
    let png = encode_png(2, 1, rgba);
    let img = decode_splash(&png).unwrap();
    assert_eq!(img.width, 2);
    assert_eq!(img.height, 1);
    assert_eq!(img.pixels.len(), 8);
    // Pixel 0, alpha 255: channels unchanged, reordered to B, G, R, A.
    assert_eq!(&img.pixels[0..4], &[200, 150, 100, 255]);
    // Pixel 1, alpha 128: channels scaled by 128/255, rounded down:
    // 200 -> 100, 150 -> 75, 100 -> 50.
    assert_eq!(&img.pixels[4..8], &[100, 75, 50, 128]);
}

#[test]
fn decode_rejects_garbage() {
    assert!(decode_splash(&[0u8, 1, 2, 3]).is_none());
    assert!(decode_splash(&[]).is_none());
}

#[test]
fn premultiply_scales_and_reorders() {
    let rgba = vec![255u8, 0, 0, 51, 0, 255, 0, 0];
    let out = premultiply_bgra(&rgba);
    // Alpha 51 = 20 percent: red 255 -> 51; blue and green 0 stay 0.
    assert_eq!(out, vec![0, 0, 51, 51, 0, 0, 0, 0]);
}

#[test]
fn premultiply_full_alpha_only_reorders() {
    let rgba = vec![10u8, 20, 30, 255];
    let out = premultiply_bgra(&rgba);
    assert_eq!(out, vec![30, 20, 10, 255]);
}
