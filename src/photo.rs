use vstd::prelude::*;
use image::{DynamicImage, ImageError};

verus! {

#[verifier::external_type_specification]
#[verifier::external_body]
pub struct ExDynamicImage(DynamicImage);

#[verifier::external_type_specification]
#[verifier::external_body]
pub struct ExImageError(ImageError);

/// Whether `bytes` hold an image in a format that can be recognised from the
/// bytes and decoded.
pub uninterp spec fn decodes(bytes: Seq<u8>) -> bool;

/// Relies on image's `load_from_memory`: it guesses the format from the
/// bytes and decodes them; whether that succeeds depends on the bytes alone.
#[verifier::external_body]
fn load_image(bytes: &[u8]) -> (r: Result<DynamicImage, ImageError>)
    ensures
        r is Ok <==> decodes(bytes@),
{
    image::load_from_memory(bytes)
}

/// Why a post's photo could not be shown.
#[derive(Debug)]
pub enum ImageFailure {
    /// The bytes could not be transferred, with the reason.
    Download(String),
    /// The bytes are not an image of a supported format.
    Decode(ImageError),
}

/// Decides whether the photo at `url` can be asked for: an empty address is
/// a download failure before any transfer.
pub fn check_photo_url(url: &str) -> (r: Result<(), ImageFailure>)
    ensures
        r is Ok <==> url@.len() > 0,
        r is Err ==> r->Err_0 is Download,
{
    if url.unicode_len() == 0 {
        Err(ImageFailure::Download(String::from_str("empty photo address")))
    } else {
        Ok(())
    }
}

/// Fetch and decode of the photo at `url`, given what the transfer of its
/// bytes gave: a failed or impossible transfer is a download failure, and
/// bytes that do not decode are a decode failure.
pub fn decode_download(url: &str, download: Result<Vec<u8>, String>) -> (r: Result<
    DynamicImage,
    ImageFailure,
>)
    ensures
        url@.len() == 0 ==> r is Err && r->Err_0 is Download,
        url@.len() > 0 ==> match download {
            Err(e) => r is Err && r->Err_0 == ImageFailure::Download(e),
            Ok(bytes) => (r is Ok <==> decodes(bytes@)) && (r is Err ==> r->Err_0 is Decode),
        },
{
    match check_photo_url(url) {
        Err(f) => Err(f),
        Ok(()) => match download {
            Err(e) => Err(ImageFailure::Download(e)),
            Ok(bytes) => match load_image(bytes.as_slice()) {
                Ok(img) => Ok(img),
                Err(e) => Err(ImageFailure::Decode(e)),
            },
        },
    }
}

} // verus!
