use clippy_clippy::pixel::{RawClipboardImage, ValidationError, BYTES_PER_PIXEL};

#[test]
fn valid_buffer_is_accepted() {
    let image = RawClipboardImage::new(2, 2, vec![0xff; 16]);
    assert_eq!(image.validate(), Ok(()));
}

#[test]
fn valid_buffers_of_many_shapes_are_accepted() {
    for (width, height) in [(1usize, 1usize), (1, 7), (7, 1), (3, 5), (16, 9), (64, 64)] {
        let image = RawClipboardImage::new(width, height, vec![0x5a; width * height * 4]);
        assert_eq!(image.validate(), Ok(()));
        assert!(!image.is_empty());
    }
}

#[test]
fn zero_width_is_empty_dimensions_whatever_the_length() {
    for len in [0usize, 1, 4, 16, 17] {
        let image = RawClipboardImage::new(0, 3, vec![1; len]);
        assert_eq!(image.validate(), Err(ValidationError::EmptyDimensions));
    }
}

#[test]
fn zero_height_is_empty_dimensions_whatever_the_length() {
    for len in [0usize, 1, 4, 16, 17] {
        let image = RawClipboardImage::new(3, 0, vec![1; len]);
        assert_eq!(image.validate(), Err(ValidationError::EmptyDimensions));
    }
}

#[test]
fn both_dimensions_zero_is_empty_dimensions() {
    let image = RawClipboardImage::new(0, 0, Vec::new());
    assert_eq!(image.validate(), Err(ValidationError::EmptyDimensions));
}

#[test]
fn short_buffer_is_a_length_mismatch() {
    let image = RawClipboardImage::new(2, 2, vec![0; 15]);
    assert_eq!(image.validate(), Err(ValidationError::LengthMismatch));
}

#[test]
fn long_buffer_is_a_length_mismatch() {
    let image = RawClipboardImage::new(2, 2, vec![0; 17]);
    assert_eq!(image.validate(), Err(ValidationError::LengthMismatch));
}

#[test]
fn empty_buffer_with_dimensions_is_a_length_mismatch() {
    let image = RawClipboardImage::new(2, 2, Vec::new());
    assert_eq!(image.validate(), Err(ValidationError::LengthMismatch));
}

#[test]
fn three_bytes_per_pixel_is_a_length_mismatch() {
    let image = RawClipboardImage::new(4, 4, vec![0; 48]);
    assert_eq!(image.validate(), Err(ValidationError::LengthMismatch));
}

#[test]
fn dimensions_whose_product_overflows_are_a_length_mismatch() {
    let image = RawClipboardImage::new(usize::MAX, 2, vec![0; 8]);
    assert_eq!(image.validate(), Err(ValidationError::LengthMismatch));
    let image = RawClipboardImage::new(usize::MAX / 4 + 1, 1, vec![0; 4]);
    assert_eq!(image.validate(), Err(ValidationError::LengthMismatch));
    let image = RawClipboardImage::new(usize::MAX / 2, usize::MAX / 2, Vec::new());
    assert_eq!(image.validate(), Err(ValidationError::LengthMismatch));
}

#[test]
fn new_keeps_its_arguments() {
    let image = RawClipboardImage::new(3, 1, vec![1, 2, 3, 4, 5, 6, 7, 8, 9, 10, 11, 12]);
    assert_eq!(image.width, 3);
    assert_eq!(image.height, 1);
    assert_eq!(image.bytes, vec![1, 2, 3, 4, 5, 6, 7, 8, 9, 10, 11, 12]);
}

#[test]
fn an_image_with_nothing_in_it_is_empty() {
    assert!(RawClipboardImage::new(0, 5, vec![0; 4]).is_empty());
    assert!(RawClipboardImage::new(5, 0, vec![0; 4]).is_empty());
    assert!(RawClipboardImage::new(5, 5, Vec::new()).is_empty());
    assert!(!RawClipboardImage::new(1, 1, vec![0; 1]).is_empty());
}

#[test]
fn a_pixel_takes_four_bytes() {
    assert_eq!(BYTES_PER_PIXEL, 4);
}
