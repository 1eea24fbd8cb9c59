use crapmap::{decode, DecodeError, Image};

const SIGNATURE: [u8; 4] = [0x43, 0x52, 0x42, 0x50];

fn header(width: u8, height: u8) -> Vec<u8> {
    let mut b = SIGNATURE.to_vec();
    b.push(0x01);
    b.push(width);
    b.push(height);
    b
}

fn decoded(bytes: &[u8]) -> Image {
    match decode(bytes) {
        Ok(img) => img,
        Err(e) => panic!("expected an image, got {:?}", e),
    }
}

fn failed(bytes: &[u8]) -> DecodeError {
    match decode(bytes) {
        Ok(img) => panic!("expected an error, got {:?}", img),
        Err(e) => e,
    }
}

#[test]
fn two_pixels_without_palette() {
    let bytes = [0x43, 0x52, 0x42, 0x50, 0x01, 0x02, 0x01, 0xAA, 0xBB];
    let img = decoded(&bytes);
    assert_eq!(img.width(), 2);
    assert_eq!(img.height(), 1);
    assert_eq!(img.palette_size(), None);
    assert_eq!(img.palette(), &None);
    assert_eq!(img.pixels(), &vec![vec![0xAA, 0xBB]]);
}

#[test]
fn wrong_signature_byte() {
    let tails: [&[u8]; 4] = [&[], &[0x01], &[0x01, 0x02, 0x01, 0xAA, 0xBB], &[0x00, 0x00, 0x00]];
    for tail in tails {
        let mut bytes = vec![0x43, 0x52, 0x42, 0x42];
        bytes.extend_from_slice(tail);
        assert_eq!(failed(&bytes), DecodeError::InvalidSignature);
    }
}

#[test]
fn one_pixel_with_no_pixel_bytes() {
    let bytes = header(1, 1);
    assert_eq!(failed(&bytes), DecodeError::TruncatedPixelData);
}

#[test]
fn short_buffers_fail_in_the_header() {
    let full = header(1, 1);
    for n in 0..7 {
        let e = failed(&full[..n]);
        assert!(matches!(
            e,
            DecodeError::InvalidSignature
                | DecodeError::UnsupportedVersion
                | DecodeError::TruncatedHeader
                | DecodeError::InvalidWidth
                | DecodeError::InvalidHeight
        ));
    }
    assert_eq!(failed(&[]), DecodeError::InvalidSignature);
    assert_eq!(failed(&full[..3]), DecodeError::InvalidSignature);
    assert_eq!(failed(&full[..4]), DecodeError::UnsupportedVersion);
    assert_eq!(failed(&full[..5]), DecodeError::TruncatedHeader);
    assert_eq!(failed(&full[..6]), DecodeError::TruncatedHeader);
    let zero_width = [0x43, 0x52, 0x42, 0x50, 0x01, 0x00];
    assert_eq!(failed(&zero_width), DecodeError::InvalidWidth);
}

#[test]
fn exact_pixel_region_has_no_palette() {
    let mut bytes = header(2, 2);
    bytes.extend_from_slice(&[1, 2, 3, 4]);
    let img = decoded(&bytes);
    assert_eq!(img.palette_size(), None);
    assert_eq!(img.palette(), &None);
    assert_eq!(img.pixels(), &vec![vec![1, 2], vec![3, 4]]);
}

#[test]
fn three_colours_with_short_table() {
    for extra in 0..9 {
        let mut bytes = header(1, 1);
        bytes.push(0x03);
        for k in 0..extra {
            bytes.push(k as u8);
        }
        bytes.push(0x00);
        assert_eq!(failed(&bytes), DecodeError::TruncatedPalette);
    }
}

#[test]
fn decoding_twice_gives_equal_images() {
    let mut bytes = header(2, 1);
    bytes.extend_from_slice(&[0x01, 10, 20, 30, 0x00, 0x00]);
    assert_eq!(decode(&bytes), decode(&bytes));
    let bad = header(0, 1);
    assert_eq!(decode(&bad), decode(&bad));
}

#[test]
fn rows_are_read_row_major() {
    let mut bytes = header(3, 2);
    bytes.extend_from_slice(&[1, 2, 3, 4, 5, 6]);
    let img = decoded(&bytes);
    assert_eq!(img.pixels().len(), 2);
    assert_eq!(img.pixels(), &vec![vec![1, 2, 3], vec![4, 5, 6]]);
}

#[test]
fn palette_is_read_before_pixels() {
    let mut bytes = header(2, 2);
    bytes.extend_from_slice(&[0x02, 255, 0, 0, 0, 0, 255]);
    bytes.extend_from_slice(&[0, 1, 1, 0]);
    let img = decoded(&bytes);
    assert_eq!(img.palette_size(), Some(2));
    assert_eq!(img.palette(), &Some(vec![[255, 0, 0], [0, 0, 255]]));
    assert_eq!(img.pixels(), &vec![vec![0, 1], vec![1, 0]]);
}

#[test]
fn bytes_after_palette_are_ignored() {
    let mut bytes = header(1, 1);
    bytes.extend_from_slice(&[0x01, 7, 8, 9, 0xEE, 0xEE]);
    bytes.push(0x00);
    let img = decoded(&bytes);
    assert_eq!(img.palette_size(), Some(1));
    assert_eq!(img.palette(), &Some(vec![[7, 8, 9]]));
    assert_eq!(img.pixels(), &vec![vec![0x00]]);
}

#[test]
fn unsupported_version() {
    let bytes = [0x43, 0x52, 0x42, 0x50, 0x02, 0x01, 0x01, 0x00];
    assert_eq!(failed(&bytes), DecodeError::UnsupportedVersion);
}

#[test]
fn zero_height() {
    let mut bytes = header(1, 0);
    bytes.push(0x00);
    assert_eq!(failed(&bytes), DecodeError::InvalidHeight);
}

#[test]
fn zero_width_checked_before_height() {
    let bytes = header(0, 0);
    assert_eq!(failed(&bytes), DecodeError::InvalidWidth);
}

#[test]
fn zero_palette_count() {
    let mut bytes = header(1, 1);
    bytes.push(0x00);
    bytes.push(0x05);
    assert_eq!(failed(&bytes), DecodeError::InvalidPaletteCount);
}

#[test]
fn pixel_region_one_byte_short() {
    let mut bytes = header(2, 3);
    bytes.extend_from_slice(&[0; 5]);
    assert_eq!(failed(&bytes), DecodeError::TruncatedPixelData);
}

#[test]
fn largest_image_with_full_palette() {
    let mut bytes = header(255, 255);
    bytes.push(0xFF);
    for i in 0..255u32 {
        bytes.extend_from_slice(&[i as u8, 0, 255 - i as u8]);
    }
    for i in 0..(255u32 * 255) {
        bytes.push((i % 251) as u8);
    }
    let img = decoded(&bytes);
    assert_eq!(img.width(), 255);
    assert_eq!(img.height(), 255);
    assert_eq!(img.palette_size(), Some(255));
    let palette = img.palette().as_ref().unwrap();
    assert_eq!(palette.len(), 255);
    assert_eq!(palette[254], [254, 0, 1]);
    assert_eq!(img.pixels().len(), 255);
    assert!(img.pixels().iter().all(|row| row.len() == 255));
    assert_eq!(img.pixels()[1][0], (255 % 251) as u8);
}
