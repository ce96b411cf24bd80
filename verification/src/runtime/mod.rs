//! Backend runtime support: generation options and the built-in backends.
//!
//! Sampling parameters are carried as IEEE-754 bit patterns (see `dto`).
pub mod dummy;
pub mod dummy_embedding;
pub mod dummy_image;
pub mod model_file;

use vstd::prelude::*;

verus! {

/// Default token budget when a request names none.
pub const DEFAULT_MAX_TOKENS: u32 = 100;

/// The bit pattern of the 32-bit float 1.0, the default temperature.
pub const DEFAULT_TEMPERATURE_BITS: u32 = 0x3F80_0000;

/// The bit pattern of the 32-bit float 1.0, the default nucleus bound.
pub const DEFAULT_TOP_P_BITS: u32 = 0x3F80_0000;

/// Sampling options handed to a generation backend.
pub struct GenerationOptions {
    pub max_tokens: u32,
    pub temperature_bits: u32,
    pub top_p_bits: u32,
}

/// The options a request's optional fields default to.
pub open spec fn spec_options_from_request(
    max_tokens: Option<u32>,
    temperature_bits: Option<u32>,
    top_p_bits: Option<u32>,
) -> GenerationOptions {
    GenerationOptions {
        max_tokens: match max_tokens {
            Some(v) => v,
            None => DEFAULT_MAX_TOKENS,
        },
        temperature_bits: match temperature_bits {
            Some(v) => v,
            None => DEFAULT_TEMPERATURE_BITS,
        },
        top_p_bits: match top_p_bits {
            Some(v) => v,
            None => DEFAULT_TOP_P_BITS,
        },
    }
}

impl GenerationOptions {
    /// Fill absent request fields with their defaults.
    pub fn from_request(
        max_tokens: Option<u32>,
        temperature_bits: Option<u32>,
        top_p_bits: Option<u32>,
    ) -> (r: GenerationOptions)
        ensures
            r == spec_options_from_request(max_tokens, temperature_bits, top_p_bits),
    {
        GenerationOptions {
            max_tokens: match max_tokens {
                Some(v) => v,
                None => DEFAULT_MAX_TOKENS,
            },
            temperature_bits: match temperature_bits {
                Some(v) => v,
                None => DEFAULT_TEMPERATURE_BITS,
            },
            top_p_bits: match top_p_bits {
                Some(v) => v,
                None => DEFAULT_TOP_P_BITS,
            },
        }
    }
}

} // verus!
