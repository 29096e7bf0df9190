use reddsaver::decode::{decode, decoded};
use reddsaver::error::ReddSaverError;

const RED_PIXEL_PNG: [u8; 69] = [
    137, 80, 78, 71, 13, 10, 26, 10, 0, 0, 0, 13, 73, 72, 68, 82, 0, 0, 0, 1, 0, 0, 0, 1, 8, 2, 0,
    0, 0, 144, 119, 83, 222, 0, 0, 0, 12, 73, 68, 65, 84, 120, 156, 99, 248, 207, 192, 0, 0, 3, 1,
    1, 0, 201, 254, 146, 239, 0, 0, 0, 0, 73, 69, 78, 68, 174, 66, 96, 130,
];

#[test]
fn png_bytes_decode_to_their_image() {
    let image = decode(&RED_PIXEL_PNG).unwrap();
    assert_eq!(image.width(), 1);
    assert_eq!(image.height(), 1);
    assert_eq!(image.to_rgb8().into_raw(), vec![255, 0, 0]);
}

#[test]
fn text_is_no_image() {
    let outcome = decode(b"<html>not found</html>");
    assert!(matches!(outcome, Err(ReddSaverError::CouldNotCreateImageError)));
}

#[test]
fn empty_body_is_no_image() {
    assert!(matches!(decode(&[]), Err(ReddSaverError::CouldNotCreateImageError)));
}

#[test]
fn truncated_png_is_no_image() {
    let outcome = decode(&RED_PIXEL_PNG[..40]);
    assert!(matches!(outcome, Err(ReddSaverError::CouldNotCreateImageError)));
}

#[test]
fn decoder_failure_becomes_could_not_create_image() {
    let failure = image::load_from_memory(b"garbage").unwrap_err();
    assert!(matches!(decoded(Err(failure)), Err(ReddSaverError::CouldNotCreateImageError)));
}

#[test]
fn decoder_success_is_handed_on() {
    let loaded = image::load_from_memory(&RED_PIXEL_PNG);
    let image = decoded(loaded).unwrap();
    assert_eq!((image.width(), image.height()), (1, 1));
}
