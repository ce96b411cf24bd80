//! The built-in image backend: answers with `n` copies of a placeholder
//! byte payload tagged with the requested size.
use vstd::prelude::*;
use vstd::string::StrSliceExecFns;
use vstd::utf8::encode_utf8;

verus! {

/// The placeholder payload for one generated image of the given size.
pub open spec fn dummy_image_payload(size: Seq<char>) -> Seq<u8> {
    encode_utf8("DUMMY_PNG:"@ + size + ":"@)
}

/// The built-in placeholder image backend.
pub struct DummyImageRuntime;

impl DummyImageRuntime {
    /// A fresh placeholder image backend.
    pub fn new() -> (r: DummyImageRuntime)
        ensures
            r == DummyImageRuntime,
    {
        DummyImageRuntime
    }

    /// Produce `n` placeholder payloads tagged with `size`.
    pub fn generate_images(&self, _prompt: &str, n: u32, size: &str) -> (r: Result<
        Vec<Vec<u8>>,
        String,
    >)
        ensures
            r matches Ok(images) && images@.len() == n,
            r matches Ok(images) ==> forall|i: int|
                0 <= i < images@.len() ==> images@[i]@ == dummy_image_payload(size@),
    {
        let mut header = String::from_str("DUMMY_PNG:");
        header.append(size);
        header.append(":");
        let mut result: Vec<Vec<u8>> = Vec::new();
        let mut i: u32 = 0;
        while i < n
            invariant
                0 <= i <= n,
                result@.len() == i,
                header@ == "DUMMY_PNG:"@ + size@ + ":"@,
                forall|j: int| 0 <= j < i ==> result@[j]@ == dummy_image_payload(size@),
            decreases n - i,
        {
            result.push(header.as_str().as_bytes_vec());
            i = i + 1;
        }
        Ok(result)
    }
}

} // verus!
