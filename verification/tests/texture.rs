use byd::texture::{ImageDataLayout, Texture, TextureBuffer, TextureError};

// A 2x1 RGBA image: an opaque red pixel and a half-transparent green one.
const TWO_PIXELS: [u8; 72] = [
    137, 80, 78, 71, 13, 10, 26, 10, 0, 0, 0, 13, 73, 72, 68, 82, 0, 0, 0, 2, 0, 0, 0, 1, 8, 6, 0,
    0, 0, 244, 34, 127, 138, 0, 0, 0, 15, 73, 68, 65, 84, 120, 156, 99, 248, 207, 192, 240, 31, 8,
    27, 0, 16, 121, 3, 126, 125, 99, 206, 215, 0, 0, 0, 0, 73, 69, 78, 68, 174, 66, 96, 130,
];

// A 1x2 RGB image without alpha: (10, 20, 30) above (40, 50, 60).
const TWO_ROWS: [u8; 73] = [
    137, 80, 78, 71, 13, 10, 26, 10, 0, 0, 0, 13, 73, 72, 68, 82, 0, 0, 0, 1, 0, 0, 0, 2, 8, 2, 0,
    0, 0, 22, 227, 33, 112, 0, 0, 0, 16, 73, 68, 65, 84, 120, 156, 99, 224, 18, 145, 99, 208, 48,
    178, 1, 0, 2, 116, 0, 211, 126, 76, 99, 26, 0, 0, 0, 0, 73, 69, 78, 68, 174, 66, 96, 130,
];

#[test]
fn an_image_file_decodes_to_its_pixels() {
    let texture = Texture::from_image_bytes(&TWO_PIXELS).unwrap();
    assert_eq!(texture.width(), 2);
    assert_eq!(texture.height(), 1);
    assert_eq!(texture.pixels(), &[255u8, 0, 0, 255, 0, 255, 0, 128][..]);
    assert!(!texture.is_allocated());
}

#[test]
fn an_image_without_alpha_becomes_opaque() {
    let texture = Texture::from_image_bytes(&TWO_ROWS).unwrap();
    assert_eq!((texture.width(), texture.height()), (1, 2));
    assert_eq!(texture.pixels(), &[10u8, 20, 30, 255, 40, 50, 60, 255][..]);
}

#[test]
fn bytes_that_are_no_image_are_a_decode_error() {
    match Texture::from_image_bytes(b"these bytes are no image") {
        Err(TextureError::Decode(text)) => assert!(!text.is_empty()),
        _ => panic!("no image was taken for one"),
    }
    assert!(matches!(Texture::from_image_bytes(&[]), Err(TextureError::Decode(_))));
    // a file that is cut short
    assert!(matches!(Texture::from_image_bytes(&TWO_PIXELS[..40]), Err(TextureError::Decode(_))));
}

#[test]
fn pixels_must_come_four_bytes_to_the_pixel() {
    let texture = Texture::from_rgba8(2, 3, vec![7u8; 24]).unwrap();
    assert_eq!((texture.width(), texture.height()), (2, 3));
    assert_eq!(texture.pixels(), &[7u8; 24][..]);
    assert!(matches!(Texture::from_rgba8(2, 3, vec![7u8; 23]), Err(TextureError::SizeMismatch)));
    assert!(matches!(Texture::from_rgba8(2, 3, vec![7u8; 25]), Err(TextureError::SizeMismatch)));
    assert!(matches!(Texture::from_rgba8(0, 0, vec![1u8]), Err(TextureError::SizeMismatch)));
    assert!(Texture::from_rgba8(0, 5, Vec::new()).is_ok());
}

#[test]
fn a_row_must_fit_a_copy() {
    // 2^30 pixels of four bytes are 2^32 bytes: one too many
    assert!(matches!(Texture::from_rgba8(1 << 30, 0, Vec::new()), Err(TextureError::TooWide)));
    assert!(Texture::from_rgba8((1 << 30) - 1, 0, Vec::new()).is_ok());
}

#[test]
fn a_new_texture_is_all_zero() {
    let texture = Texture::new(3, 2);
    assert_eq!((texture.width(), texture.height()), (3, 2));
    assert_eq!(texture.pixels(), &[0u8; 24][..]);
    assert_eq!(texture.buffer(), None);
}

#[test]
fn the_placeholder_is_one_white_pixel() {
    let texture = Texture::placeholder();
    assert_eq!((texture.width(), texture.height()), (1, 1));
    assert_eq!(texture.pixels(), &[255u8, 255, 255, 255][..]);
}

#[test]
fn a_twin_has_the_size_of_its_texture() {
    let mut texture = Texture::new(5, 7);
    assert!(!texture.is_allocated());
    texture.allocate();
    assert!(texture.is_allocated());
    assert_eq!(texture.buffer(), Some(TextureBuffer { width: 5, height: 7 }));
    texture.allocate();
    assert_eq!(texture.buffer(), Some(TextureBuffer { width: 5, height: 7 }));
    texture.destroy();
    assert!(!texture.is_allocated());
    texture.destroy();
    assert_eq!(texture.buffer(), None);
    assert_eq!(texture.pixels().len(), 140);
}

#[test]
fn rows_are_packed_for_the_copy() {
    assert_eq!(
        Texture::new(5, 7).upload_layout(),
        ImageDataLayout { offset: 0, bytes_per_row: Some(20), rows_per_image: Some(7) }
    );
    assert_eq!(
        TextureBuffer::data_layout(0, 0),
        ImageDataLayout { offset: 0, bytes_per_row: None, rows_per_image: None }
    );
    assert_eq!(
        TextureBuffer::data_layout((1 << 30) - 1, 1),
        ImageDataLayout { offset: 0, bytes_per_row: Some(u32::MAX - 3), rows_per_image: Some(1) }
    );
}
