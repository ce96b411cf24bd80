//! Base64 encoding of generated image payloads, and assembly of the image
//! response object.
use vstd::prelude::*;

use base64::Engine;

use crate::dto::{ImageDataObject, ImagesGenerationResponse};

verus! {

/// The padded standard-alphabet base64 encoding of a byte sequence, as
/// base64's STANDARD engine computes it: a function of the bytes alone.
pub uninterp spec fn base64_of(bytes: Seq<u8>) -> Seq<char>;

/// Relies on base64's STANDARD engine: four output characters for every
/// three-byte group, the last group padded, so the output length is
/// `4 * ceil(len / 3)`.
#[verifier::external_body]
fn base64_encode(bytes: &[u8]) -> (r: String)
    ensures
        r@ == base64_of(bytes@),
        r@.len() == 4 * ((bytes@.len() + 2) / 3),
{
    base64::engine::general_purpose::STANDARD.encode(bytes)
}

/// Wrap raw image payloads in the response object, each base64-encoded, in
/// order.
pub fn build_images_response(images: &Vec<Vec<u8>>, created: u64) -> (r: ImagesGenerationResponse)
    ensures
        r.created == created,
        r.data@.len() == images@.len(),
        forall|i: int| 0 <= i < r.data@.len() ==> (#[trigger] r.data@[i]).b64_json is Some,
        forall|i: int|
            0 <= i < r.data@.len() ==> (#[trigger] r.data@[i]).b64_json->0@ == base64_of(
                images@[i]@,
            ),
        forall|i: int|
            0 <= i < r.data@.len() ==> (#[trigger] r.data@[i]).b64_json->0@.len() == 4 * ((
            images@[i]@.len() + 2) / 3),
        forall|i: int|
            0 <= i < r.data@.len() ==> (#[trigger] r.data@[i]).url is None
                && r.data@[i].revised_prompt is None,
{
    let n = images.len();
    let mut data: Vec<ImageDataObject> = Vec::new();
    let mut i: usize = 0;
    while i < n
        invariant
            n == images@.len(),
            0 <= i <= n,
            data@.len() == i,
            forall|j: int| 0 <= j < i ==> (#[trigger] data@[j]).b64_json is Some,
            forall|j: int|
                0 <= j < i ==> (#[trigger] data@[j]).b64_json->0@ == base64_of(images@[j]@),
            forall|j: int|
                0 <= j < i ==> (#[trigger] data@[j]).b64_json->0@.len() == 4 * ((images@[j]@.len()
                    + 2) / 3),
            forall|j: int|
                0 <= j < i ==> (#[trigger] data@[j]).url is None && data@[j].revised_prompt is None,
        decreases n - i,
    {
        let encoded = base64_encode(images[i].as_slice());
        data.push(ImageDataObject { b64_json: Some(encoded), url: None, revised_prompt: None });
        i = i + 1;
    }
    ImagesGenerationResponse { created, data }
}

} // verus!
