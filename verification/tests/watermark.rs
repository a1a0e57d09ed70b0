use droidium::watermark::Watermark;
use droidium::watermark::WatermarkError;

fn png_bytes(width: u32, height: u32, raw: Vec<u8>) -> Vec<u8> {
    let img = image::RgbaImage::from_raw(width, height, raw).unwrap();
    let mut out = std::io::Cursor::new(Vec::new());
    img.write_to(&mut out, image::ImageFormat::Png).unwrap();
    out.into_inner()
}

#[test]
fn decoded_dimensions_equal_source_dimensions() {
    let bytes = png_bytes(3, 2, vec![0u8; 24]);
    let wm = Watermark::from_bytes(&bytes).unwrap();
    assert_eq!(wm.width, 3);
    assert_eq!(wm.height, 2);
    assert_eq!(wm.pixels.len(), 24);
    assert_eq!(wm.pixel_count(), 6);
}

#[test]
fn decoded_pixels_equal_source_pixels() {
    let raw = vec![
        255, 0, 0, 255, // red
        0, 255, 0, 255, // green
        0, 0, 255, 255, // blue
        10, 20, 30, 40, // translucent grey-blue
    ];
    let bytes = png_bytes(2, 2, raw);
    let wm = Watermark::from_bytes(&bytes).unwrap();
    assert_eq!(wm.pixel_at(0), (255, 0, 0, 255));
    assert_eq!(wm.pixel_at(1), (0, 255, 0, 255));
    assert_eq!(wm.pixel_at(2), (0, 0, 255, 255));
    assert_eq!(wm.pixel_at(3), (10, 20, 30, 40));
}

#[test]
fn decoding_differs_from_the_encoded_bytes() {
    let raw = vec![1, 2, 3, 4];
    let bytes = png_bytes(1, 1, raw.clone());
    let wm = Watermark::from_bytes(&bytes).unwrap();
    // The PNG container is not the pixel buffer: decoding must strip it.
    assert_ne!(wm.pixels, bytes);
    assert_eq!(wm.pixels, raw);
}

#[test]
fn empty_bytes_are_rejected() {
    let result = Watermark::from_bytes(&[]);
    assert_eq!(result.unwrap_err(), WatermarkError::InvalidImage);
}

#[test]
fn garbage_bytes_are_rejected() {
    let result = Watermark::from_bytes(&[0xde, 0xad, 0xbe, 0xef, 0x00]);
    assert_eq!(result.unwrap_err(), WatermarkError::InvalidImage);
}

#[test]
fn corrupted_png_is_rejected() {
    let mut bytes = png_bytes(4, 4, vec![128u8; 64]);
    // Destroy the signature: the loader must refuse the buffer.
    bytes[0] = 0;
    bytes[1] = 0;
    let result = Watermark::from_bytes(&bytes);
    assert_eq!(result.unwrap_err(), WatermarkError::InvalidImage);
}

#[test]
fn truncated_png_is_rejected() {
    let bytes = png_bytes(4, 4, vec![128u8; 64]);
    let result = Watermark::from_bytes(&bytes[..8]);
    assert_eq!(result.unwrap_err(), WatermarkError::InvalidImage);
}
