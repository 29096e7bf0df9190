//! From fetched bytes to an image in memory.
//!
//! Decoding is the work of the `image` crate. This module declares what it
//! hands back and turns its failure into the failure of the item.

use crate::error::ReddSaverError;
use image::DynamicImage;
use image::ImageError;
use vstd::prelude::*;

verus! {

/// `image::DynamicImage`, a decoded image. Nothing inside it is visible to
/// the contracts: it is carried from the decoder to whoever writes it out.
#[verifier::external_type_specification]
#[verifier::external_body]
pub struct ExDynamicImage(image::DynamicImage);

/// `image::ImageError`, the reason why bytes could not be decoded.
#[verifier::external_type_specification]
#[verifier::external_body]
pub struct ExImageError(image::ImageError);

/// `image::load_from_memory` decodes bytes in a format that it guesses, with
/// the hooks registered in the process. Nothing is claimed of its result.
pub assume_specification[ image::load_from_memory ](buffer: &[u8]) -> (loaded: Result<
    DynamicImage,
    ImageError,
>)
;

/// What an attempt to decode means for the item: the image, or the failure
/// to create one, whatever the decoder's own reason was.
pub fn decoded(loaded: Result<DynamicImage, ImageError>) -> (image: Result<
    DynamicImage,
    ReddSaverError,
>)
    ensures
        loaded matches Ok(picture) ==> image == Ok::<DynamicImage, ReddSaverError>(picture),
        loaded is Err ==> image == Err::<DynamicImage, ReddSaverError>(
            ReddSaverError::CouldNotCreateImageError,
        ),
{
    match loaded {
        Ok(picture) => Ok(picture),
        Err(_) => Err(ReddSaverError::CouldNotCreateImageError),
    }
}

/// Decodes fetched bytes. Whether they are an image is the decoder's to say;
/// where it says no, the failure is `CouldNotCreateImageError` and no other.
pub fn decode(bytes: &[u8]) -> (image: Result<DynamicImage, ReddSaverError>)
    ensures
        image is Err ==> image == Err::<DynamicImage, ReddSaverError>(
            ReddSaverError::CouldNotCreateImageError,
        ),
{
    decoded(image::load_from_memory(bytes))
}

} // verus!
