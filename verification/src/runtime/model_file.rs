//! Validation of a model file before a provider loader is handed its path:
//! the extension must be `.gguf` or `.ggml` (case-insensitive), and a GGUF
//! file must open with the `GGUF` magic. Reading the file is the host's
//! work; this module judges the name and the leading bytes.
use vstd::prelude::*;
use vstd::string::StrSliceExecFns;

verus! {

/// The four magic bytes opening a GGUF file, ASCII `GGUF`.
pub open spec fn gguf_magic() -> Seq<u8> {
    seq![0x47u8, 0x47u8, 0x55u8, 0x46u8]
}

/// Case-insensitive equality with `gguf`.
pub open spec fn is_gguf_ext(s: Seq<char>) -> bool {
    &&& s.len() == 4
    &&& (s[0] == 'g' || s[0] == 'G')
    &&& (s[1] == 'g' || s[1] == 'G')
    &&& (s[2] == 'u' || s[2] == 'U')
    &&& (s[3] == 'f' || s[3] == 'F')
}

/// Case-insensitive equality with `ggml`.
pub open spec fn is_ggml_ext(s: Seq<char>) -> bool {
    &&& s.len() == 4
    &&& (s[0] == 'g' || s[0] == 'G')
    &&& (s[1] == 'g' || s[1] == 'G')
    &&& (s[2] == 'm' || s[2] == 'M')
    &&& (s[3] == 'l' || s[3] == 'L')
}

/// The rejection message for an extension that is neither gguf nor ggml.
pub open spec fn unsupported_ext_msg(e: Seq<char>) -> Seq<char> {
    "Unsupported model extension: ."@ + e + " (expected .gguf or .ggml)"@
}

/// Whether the leading file bytes carry the GGUF magic.
pub open spec fn has_gguf_magic(header: Seq<u8>) -> bool {
    header.len() >= 4 && header.subrange(0, 4) == gguf_magic()
}

fn ext_matches(ext: &str, a: char, au: char, b: char, bu: char) -> (r: bool)
    ensures
        r == (ext@.len() == 4 && (ext@[0] == 'g' || ext@[0] == 'G') && (ext@[1] == 'g' || ext@[1]
            == 'G') && (ext@[2] == a || ext@[2] == au) && (ext@[3] == b || ext@[3] == bu)),
{
    if ext.unicode_len() != 4 {
        return false;
    }
    let c0 = ext.get_char(0);
    let c1 = ext.get_char(1);
    let c2 = ext.get_char(2);
    let c3 = ext.get_char(3);
    (c0 == 'g' || c0 == 'G') && (c1 == 'g' || c1 == 'G') && (c2 == a || c2 == au) && (c3 == b || c3
        == bu)
}

/// Judge a model file by its extension and its leading bytes.
pub fn validate_model_file(extension: Option<&str>, header: &Vec<u8>) -> (r: Result<(), String>)
    ensures
        extension is None ==> (r matches Err(m) && m@
            == "Model file has no extension; expected .gguf or .ggml"@),
        extension matches Some(e) && is_gguf_ext(e@) && has_gguf_magic(header@) ==> r is Ok,
        extension matches Some(e) && is_gguf_ext(e@) && !has_gguf_magic(header@) ==> (r matches Err(
            m,
        ) && m@ == "Invalid GGUF header: expected 'GGUF' magic"@),
        extension matches Some(e) && !is_gguf_ext(e@) && is_ggml_ext(e@) ==> r is Ok,
        extension matches Some(e) && !is_gguf_ext(e@) && !is_ggml_ext(e@) ==> (r matches Err(m)
            && m@ == unsupported_ext_msg(extension->0@)),
{
    match extension {
        None => Err(String::from_str("Model file has no extension; expected .gguf or .ggml")),
        Some(ext) => {
            if ext_matches(ext, 'u', 'U', 'f', 'F') {
                // GGUF: the file must open with the magic.
                if header.len() >= 4 && header[0] == 0x47 && header[1] == 0x47 && header[2] == 0x55
                    && header[3] == 0x46 {
                    proof {
                        assert(header@.subrange(0, 4) =~= gguf_magic());
                    }
                    Ok(())
                } else {
                    proof {
                        if header@.len() >= 4 && header@.subrange(0, 4) == gguf_magic() {
                            assert(header@[0] == 0x47u8 && header@[1] == 0x47u8 && header@[2]
                                == 0x55u8 && header@[3] == 0x46u8);
                        }
                    }
                    Err(String::from_str("Invalid GGUF header: expected 'GGUF' magic"))
                }
            } else if ext_matches(ext, 'm', 'M', 'l', 'L') {
                // GGML variants have multiple magics; none is enforced.
                Ok(())
            } else {
                let mut m = String::from_str("Unsupported model extension: .");
                m.append(ext);
                m.append(" (expected .gguf or .ggml)");
                Err(m)
            }
        },
    }
}

} // verus!
