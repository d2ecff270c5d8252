use quad_demo::texture::{decode_texture, Texture, TextureError, PIXEL_BYTES};

// Two rows of two RGBA pixels.
const RGBA_2X2: [u8; 79] = [
    0x89, 0x50, 0x4e, 0x47, 0x0d, 0x0a, 0x1a, 0x0a, 0x00, 0x00, 0x00, 0x0d,
    0x49, 0x48, 0x44, 0x52, 0x00, 0x00, 0x00, 0x02, 0x00, 0x00, 0x00, 0x02,
    0x08, 0x06, 0x00, 0x00, 0x00, 0x72, 0xb6, 0x0d, 0x24, 0x00, 0x00, 0x00,
    0x16, 0x49, 0x44, 0x41, 0x54, 0x78, 0xda, 0x63, 0xf8, 0xcf, 0xc0, 0xf0,
    0x1f, 0x08, 0x1b, 0x18, 0x40, 0x34, 0x97, 0x88, 0x9c, 0x06, 0x00, 0x36,
    0xa9, 0x04, 0xe1, 0x64, 0xdb, 0x4d, 0x7e, 0x00, 0x00, 0x00, 0x00, 0x49,
    0x45, 0x4e, 0x44, 0xae, 0x42, 0x60, 0x82,
];

// One row of three grey pixels: black, mid grey, white.
const GREY_3X1: [u8; 69] = [
    0x89, 0x50, 0x4e, 0x47, 0x0d, 0x0a, 0x1a, 0x0a, 0x00, 0x00, 0x00, 0x0d,
    0x49, 0x48, 0x44, 0x52, 0x00, 0x00, 0x00, 0x03, 0x00, 0x00, 0x00, 0x01,
    0x08, 0x00, 0x00, 0x00, 0x00, 0x3e, 0x8b, 0x4b, 0x68, 0x00, 0x00, 0x00,
    0x0c, 0x49, 0x44, 0x41, 0x54, 0x78, 0xda, 0x63, 0x60, 0xa8, 0xff, 0x0f,
    0x00, 0x02, 0x01, 0x01, 0x7f, 0x8b, 0x1b, 0x64, 0x61, 0x00, 0x00, 0x00,
    0x00, 0x49, 0x45, 0x4e, 0x44, 0xae, 0x42, 0x60, 0x82,
];

// Two rows of one RGB pixel.
const RGB_1X2: [u8; 73] = [
    0x89, 0x50, 0x4e, 0x47, 0x0d, 0x0a, 0x1a, 0x0a, 0x00, 0x00, 0x00, 0x0d,
    0x49, 0x48, 0x44, 0x52, 0x00, 0x00, 0x00, 0x01, 0x00, 0x00, 0x00, 0x02,
    0x08, 0x02, 0x00, 0x00, 0x00, 0x16, 0xe3, 0x21, 0x70, 0x00, 0x00, 0x00,
    0x10, 0x49, 0x44, 0x41, 0x54, 0x78, 0xda, 0x63, 0x60, 0x64, 0x62, 0x66,
    0xf8, 0xf5, 0xfb, 0x0f, 0x00, 0x06, 0x0a, 0x02, 0xf8, 0xa4, 0x29, 0x76,
    0x42, 0x00, 0x00, 0x00, 0x00, 0x49, 0x45, 0x4e, 0x44, 0xae, 0x42, 0x60,
    0x82,
];

#[test]
fn new_accepts_an_exact_buffer() {
    let texture = Texture::new(2, 1, vec![1, 2, 3, 4, 5, 6, 7, 8]).unwrap();
    assert_eq!(texture.width(), 2);
    assert_eq!(texture.height(), 1);
    assert_eq!(texture.pixels(), &[1, 2, 3, 4, 5, 6, 7, 8]);
}

#[test]
fn new_accepts_a_longer_buffer_and_keeps_it_whole() {
    let texture = Texture::new(1, 1, vec![9, 8, 7, 6, 5]).unwrap();
    assert_eq!(texture.pixels(), &[9, 8, 7, 6, 5]);
    assert_eq!(texture.into_parts(), (1, 1, vec![9, 8, 7, 6, 5]));
}

#[test]
fn new_rejects_a_buffer_one_byte_short() {
    let result = Texture::new(2, 2, vec![0; 15]);
    assert!(matches!(result, Err(TextureError::ShortBuffer)));
}

#[test]
fn new_rejects_an_empty_buffer_for_one_pixel() {
    assert!(matches!(Texture::new(1, 1, Vec::new()), Err(TextureError::ShortBuffer)));
}

#[test]
fn new_accepts_empty_images() {
    let flat = Texture::new(0, 5, Vec::new()).unwrap();
    assert_eq!((flat.width(), flat.height()), (0, 5));
    assert!(flat.pixels().is_empty());
    let thin = Texture::new(7, 0, Vec::new()).unwrap();
    assert_eq!(thin.into_parts(), (7, 0, Vec::new()));
}

#[test]
fn new_rejects_dimensions_whose_size_exceeds_any_buffer() {
    let result = Texture::new(u32::MAX, u32::MAX, vec![0; 64]);
    assert!(matches!(result, Err(TextureError::ShortBuffer)));
    let result = Texture::new(65536, 65536, vec![0; 64]);
    assert!(matches!(result, Err(TextureError::ShortBuffer)));
    let result = Texture::new(1 << 31, 2, vec![0; 64]);
    assert!(matches!(result, Err(TextureError::ShortBuffer)));
}

#[test]
fn pixel_bytes_is_four() {
    assert_eq!(PIXEL_BYTES, 4);
}

#[test]
fn decode_reads_rgba_pixels_row_by_row() {
    let texture = decode_texture(&RGBA_2X2).unwrap();
    assert_eq!((texture.width(), texture.height()), (2, 2));
    assert_eq!(
        texture.pixels(),
        &[255, 0, 0, 255, 0, 255, 0, 128, 0, 0, 255, 0, 10, 20, 30, 40]
    );
}

#[test]
fn decode_expands_grey_to_opaque_rgba() {
    let texture = decode_texture(&GREY_3X1).unwrap();
    assert_eq!((texture.width(), texture.height()), (3, 1));
    assert_eq!(
        texture.pixels(),
        &[0, 0, 0, 255, 127, 127, 127, 255, 255, 255, 255, 255]
    );
}

#[test]
fn decode_adds_an_opaque_alpha_to_rgb() {
    let texture = decode_texture(&RGB_1X2).unwrap();
    assert_eq!(texture.into_parts(), (1, 2, vec![1, 2, 3, 255, 250, 251, 252, 255]));
}

#[test]
fn decoded_buffer_covers_the_dimensions() {
    for bytes in [&RGBA_2X2[..], &GREY_3X1[..], &RGB_1X2[..]] {
        let texture = decode_texture(bytes).unwrap();
        let need = PIXEL_BYTES * (texture.width() as usize) * (texture.height() as usize);
        assert!(need <= texture.pixels().len());
    }
}

#[test]
fn decode_does_not_hand_the_input_back() {
    let texture = decode_texture(&RGBA_2X2).unwrap();
    assert_ne!(texture.pixels(), &RGBA_2X2[..]);
    assert_eq!(texture.pixels().len(), 16);
}

#[test]
fn decode_rejects_empty_input() {
    assert!(matches!(decode_texture(&[]), Err(TextureError::Decode(_))));
}

#[test]
fn decode_rejects_bytes_that_are_no_image() {
    let result = decode_texture(b"not an image at all");
    assert!(matches!(result, Err(TextureError::Decode(_))));
}

#[test]
fn decode_rejects_a_truncated_png() {
    let result = decode_texture(&RGBA_2X2[..40]);
    assert!(matches!(result, Err(TextureError::Decode(_))));
}

#[test]
fn decode_rejects_a_png_with_a_damaged_header() {
    let mut bytes = RGBA_2X2;
    bytes[17] ^= 0xff;
    assert!(matches!(decode_texture(&bytes), Err(TextureError::Decode(_))));
}
