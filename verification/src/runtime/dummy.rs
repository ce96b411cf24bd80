//! The built-in echo backend: answers chat calls by echoing the prompt and
//! vision calls by echoing the text and the number of attached images, both
//! truncated to the requested token budget (one character per token).
use vstd::prelude::*;

use crate::runtime::GenerationOptions;
use crate::strutil::{dec_str, prefix_chars, take_chars, u64_to_dec};

verus! {

/// What the echo backend answers a chat call with.
pub open spec fn echo_text(prompt: Seq<char>, max_tokens: nat) -> Seq<char> {
    "Echo: "@ + take_chars(prompt, max_tokens)
}

/// The untruncated text of a vision echo.
pub open spec fn vision_full_text(text: Seq<char>, n_urls: nat) -> Seq<char> {
    if n_urls == 0 {
        "Echo(Vision): "@ + text
    } else {
        "Echo(Vision): "@ + text + " | images="@ + dec_str(n_urls)
    }
}

/// What the echo backend answers a vision call with.
pub open spec fn vision_text(text: Seq<char>, n_urls: nat, max_tokens: nat) -> Seq<char> {
    take_chars(vision_full_text(text, n_urls), max_tokens)
}

/// The built-in echo backend.
pub struct DummyRuntime;

impl DummyRuntime {
    /// A fresh echo backend.
    pub fn new() -> (r: DummyRuntime)
        ensures
            r == DummyRuntime,
    {
        DummyRuntime
    }

    /// Echo the prompt, truncated to `max_tokens` characters.
    pub fn generate(&self, prompt: &str, options: &GenerationOptions) -> (r: Result<
        String,
        String,
    >)
        ensures
            r matches Ok(t) && t@ == echo_text(prompt@, options.max_tokens as nat),
    {
        let truncated = prefix_chars(prompt, options.max_tokens as usize);
        let mut out = String::from_str("Echo: ");
        out.append(truncated.as_str());
        Ok(out)
    }

    /// Echo the text and the image count, truncated to `max_tokens`
    /// characters.
    pub fn generate_from_vision(
        &self,
        text: &str,
        image_urls: &Vec<String>,
        options: &GenerationOptions,
    ) -> (r: Result<String, String>)
        ensures
            r matches Ok(t) && t@ == vision_text(
                text@,
                image_urls@.len(),
                options.max_tokens as nat,
            ),
    {
        let mut full = String::from_str("Echo(Vision): ");
        full.append(text);
        if image_urls.len() > 0 {
            full.append(" | images=");
            let count = u64_to_dec(image_urls.len() as u64);
            full.append(count.as_str());
        }
        let out = prefix_chars(full.as_str(), options.max_tokens as usize);
        Ok(out)
    }
}

/// The echo answer never exceeds the `"Echo: "` prefix plus the token
/// budget, one character per token.
pub proof fn lemma_echo_length(prompt: Seq<char>, max_tokens: nat)
    ensures
        echo_text(prompt, max_tokens).len() <= "Echo: "@.len() + max_tokens,
{
}

} // verus!
