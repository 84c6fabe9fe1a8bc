//! Cover images: decoding the bytes fetched for a track's album cover and
//! caching the decoded image under its URL.
//!
//! Fetching the bytes is the caller's part (an HTTP round trip); decoding is
//! done here through the image crate.

use vstd::prelude::*;
use crate::cache::{cache_has, cache_put};
use crate::model::AppError;
use crate::state::AppData;

verus! {

/// Declares image::DynamicImage, the decoded image the cache carries as an
/// opaque value.
#[verifier::external_type_specification]
#[verifier::external_body]
pub struct ExDynamicImage(image::DynamicImage);

/// Declares image::ImageError, the decoder's error, carried opaquely and
/// mapped to the library's own error.
#[verifier::external_type_specification]
#[verifier::external_body]
pub struct ExImageError(image::ImageError);

/// Whether the image crate can decode these bytes into an image: the
/// format guess and the decoding depend on the bytes alone.
pub uninterp spec fn image_decodable(bytes: Seq<u8>) -> bool;

/// Relies on image::load_from_memory: guesses the format of in-memory bytes
/// and decodes them into a dynamic image, succeeding exactly when the bytes
/// hold a decodable image — a function of the bytes alone.
#[verifier::external_body]
fn decode_image(bytes: &Vec<u8>) -> (r: Result<image::DynamicImage, image::ImageError>)
    ensures
        r is Ok <==> image_decodable(bytes@),
{
    image::load_from_memory(bytes.as_slice())
}

/// Whether the cover image at `url` still has to be fetched: only when a URL
/// is known and its image is not already cached.
pub fn should_fetch_cover(data: &AppData, url: Option<&String>) -> (r: bool)
    ensures
        r == match url {
            Some(u) => !cache_has(data.caches.images@, u@),
            None => false,
        },
{
    match url {
        Some(u) => !data.caches.images.contains(u.as_str()),
        None => false,
    }
}

/// Caches a decoded cover image under its URL, as the most recently used
/// entry of the image cache. Nothing else of the data region changes.
pub fn cache_cover_image(data: &mut AppData, url: String, img: image::DynamicImage)
    requires
        old(data).wf(),
    ensures
        final(data).wf(),
        final(data).caches.images@ == cache_put(
            old(data).caches.images@,
            old(data).caches.images.cap(),
            url@,
            img,
        ),
        final(data).caches.images.cap() == old(data).caches.images.cap(),
        final(data).caches.context == old(data).caches.context,
        final(data).caches.search == old(data).caches.search,
        final(data).caches.tracks == old(data).caches.tracks,
        final(data).caches.lyrics == old(data).caches.lyrics,
        final(data).user_data == old(data).user_data,
        final(data).browse == old(data).browse,
{
    data.caches.images.put(url, img);
}

/// Decodes the bytes fetched for a cover image and caches the image under
/// its URL. Decodable bytes always end up cached; undecodable bytes are
/// rejected as [`AppError::InvalidImageData`] and nothing is cached.
pub fn store_cover_image(data: &mut AppData, url: String, bytes: &Vec<u8>) -> (r: Result<
    (),
    AppError,
>)
    requires
        old(data).wf(),
    ensures
        final(data).wf(),
        r is Ok <==> image_decodable(bytes@),
        r is Err ==> r->Err_0 == AppError::InvalidImageData && *final(data) == *old(data),
        r is Ok ==> cache_has(final(data).caches.images@, url@) && exists|img: image::DynamicImage|
            final(data).caches.images@ == cache_put(
                old(data).caches.images@,
                old(data).caches.images.cap(),
                url@,
                img,
            ),
        final(data).caches.context == old(data).caches.context,
        final(data).caches.search == old(data).caches.search,
        final(data).caches.tracks == old(data).caches.tracks,
        final(data).caches.lyrics == old(data).caches.lyrics,
        final(data).user_data == old(data).user_data,
        final(data).browse == old(data).browse,
{
    match decode_image(bytes) {
        Ok(img) => {
            let ghost u = url@;
            let ghost img0 = img;
            cache_cover_image(data, url, img);
            proof {
                assert(data.caches.images@ == cache_put(
                    old(data).caches.images@,
                    old(data).caches.images.cap(),
                    u,
                    img0,
                ));
                assert(data.caches.images@[0].0 == u);
                assert(cache_has(data.caches.images@, u));
            }
            Ok(())
        },
        Err(_) => Err(AppError::InvalidImageData),
    }
}

} // verus!
