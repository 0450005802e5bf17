use feedview::photo::{check_photo_url, decode_download, ImageFailure};
use image::{DynamicImage, GenericImageView, ImageOutputFormat};
use std::io::Cursor;

fn png_bytes(w: u32, h: u32) -> Vec<u8> {
    let mut buf = Cursor::new(Vec::new());
    DynamicImage::new_rgb8(w, h).write_to(&mut buf, ImageOutputFormat::Png).unwrap();
    buf.into_inner()
}

#[test]
fn empty_address_is_a_download_failure() {
    assert!(matches!(check_photo_url(""), Err(ImageFailure::Download(_))));
    assert!(check_photo_url("https://cdn.example/a.jpg").is_ok());
}

#[test]
fn empty_address_never_decodes() {
    let r = decode_download("", Ok(png_bytes(2, 2)));
    assert!(matches!(r, Err(ImageFailure::Download(_))));
    let r = decode_download("", Ok(vec![0, 1, 2]));
    assert!(matches!(r, Err(ImageFailure::Download(_))));
}

#[test]
fn failed_transfer_keeps_its_reason() {
    let r = decode_download("https://cdn.example/a.jpg", Err("timed out".to_string()));
    match r {
        Err(ImageFailure::Download(reason)) => assert_eq!(reason, "timed out"),
        _ => panic!("expected a download failure"),
    }
}

#[test]
fn garbage_bytes_are_a_decode_failure() {
    let r = decode_download("https://cdn.example/a.jpg", Ok(vec![1, 2, 3, 4, 5]));
    assert!(matches!(r, Err(ImageFailure::Decode(_))));
    let r = decode_download("https://cdn.example/a.jpg", Ok(Vec::new()));
    assert!(matches!(r, Err(ImageFailure::Decode(_))));
}

#[test]
fn png_bytes_decode() {
    let img = decode_download("https://cdn.example/a.png", Ok(png_bytes(2, 3))).unwrap();
    assert_eq!(img.dimensions(), (2, 3));
}
