//! The chat request fingerprint: the content-addressed cache key of a
//! buffered chat response.
//!
//! The fingerprint is the SHA-256 digest over, in order: the model name
//! bytes; for each message the role bytes followed by its text bytes (text
//! content, or text parts and image URLs in order); then the little-endian
//! bytes of `max_tokens`, `temperature`, and `top_p` where present. A
//! streaming request never produces a fingerprint.
use vstd::prelude::*;
use vstd::string::StrSliceExecFns;
use vstd::utf8::encode_utf8;

use crate::digest::{sha256_hex, sha256_hex_of};
use crate::dto::{ChatCompletionMessage, ChatCompletionRequest, ChatMessageContent, ContentPart};

verus! {

/// The content of one message part, as mathematical values.
pub enum ContentPartView {
    TextPart(Seq<char>),
    ImagePart(Seq<char>),
}

/// The content of one message, as mathematical values.
pub enum ContentView {
    TextContent(Seq<char>),
    PartsContent(Seq<ContentPartView>),
}

/// One message, as mathematical values.
pub struct MessageView {
    pub role: Seq<char>,
    pub content: ContentView,
}

/// The view of a message part; the optional detail level of an image
/// reference does not reach the fingerprint.
pub open spec fn part_view(p: ContentPart) -> ContentPartView {
    match p {
        ContentPart::Text { text } => ContentPartView::TextPart(text@),
        ContentPart::ImageUrl { image_url } => ContentPartView::ImagePart(image_url.url@),
    }
}

/// The view of message content.
pub open spec fn content_view(c: ChatMessageContent) -> ContentView {
    match c {
        ChatMessageContent::Text(s) => ContentView::TextContent(s@),
        ChatMessageContent::Parts(v) => ContentView::PartsContent(
            v@.map_values(|p: ContentPart| part_view(p)),
        ),
    }
}

/// The view of one message.
pub open spec fn message_view(m: ChatCompletionMessage) -> MessageView {
    MessageView { role: m.role@, content: content_view(m.content) }
}

/// The views of a message list.
pub open spec fn messages_view(ms: Seq<ChatCompletionMessage>) -> Seq<MessageView> {
    ms.map_values(|m: ChatCompletionMessage| message_view(m))
}

/// The bytes one part contributes to the transcript.
pub open spec fn part_bytes(p: ContentPartView) -> Seq<u8> {
    match p {
        ContentPartView::TextPart(t) => encode_utf8(t),
        ContentPartView::ImagePart(u) => encode_utf8(u),
    }
}

/// The bytes of a part list, in order.
pub open spec fn parts_bytes(ps: Seq<ContentPartView>) -> Seq<u8>
    decreases ps.len(),
{
    if ps.len() == 0 {
        Seq::<u8>::empty()
    } else {
        part_bytes(ps[0]) + parts_bytes(ps.drop_first())
    }
}

/// The bytes message content contributes to the transcript.
pub open spec fn content_bytes(c: ContentView) -> Seq<u8> {
    match c {
        ContentView::TextContent(t) => encode_utf8(t),
        ContentView::PartsContent(ps) => parts_bytes(ps),
    }
}

/// The bytes of one message: its role, then its content.
pub open spec fn message_bytes(m: MessageView) -> Seq<u8> {
    encode_utf8(m.role) + content_bytes(m.content)
}

/// The bytes of a message list, in order.
pub open spec fn messages_bytes(ms: Seq<MessageView>) -> Seq<u8>
    decreases ms.len(),
{
    if ms.len() == 0 {
        Seq::<u8>::empty()
    } else {
        message_bytes(ms[0]) + messages_bytes(ms.drop_first())
    }
}

/// The little-endian bytes of a 32-bit value.
pub open spec fn u32_le(x: u32) -> Seq<u8> {
    seq![
        (x % 256) as u8,
        ((x / 256) % 256) as u8,
        ((x / 65536) % 256) as u8,
        ((x / 16777216) % 256) as u8,
    ]
}

/// The bytes an optional 32-bit field contributes: none when absent.
pub open spec fn opt_u32_le(o: Option<u32>) -> Seq<u8> {
    match o {
        Some(x) => u32_le(x),
        None => Seq::<u8>::empty(),
    }
}

/// The whole fingerprint transcript.
pub open spec fn fingerprint_transcript(
    model: Seq<char>,
    msgs: Seq<MessageView>,
    max_tokens: Option<u32>,
    temperature_bits: Option<u32>,
    top_p_bits: Option<u32>,
) -> Seq<u8> {
    encode_utf8(model) + messages_bytes(msgs) + opt_u32_le(max_tokens) + opt_u32_le(
        temperature_bits,
    ) + opt_u32_le(top_p_bits)
}

/// The transcript of a chat request.
pub open spec fn request_fingerprint_bytes(req: ChatCompletionRequest) -> Seq<u8> {
    fingerprint_transcript(
        req.model@,
        messages_view(req.messages@),
        req.max_tokens,
        req.temperature_bits,
        req.top_p_bits,
    )
}

/// The cache key of a buffered chat request.
pub open spec fn spec_cache_key(req: ChatCompletionRequest) -> Seq<char> {
    sha256_hex_of(request_fingerprint_bytes(req))
}

/// Whether a chat request asks for a streamed response.
pub open spec fn spec_is_streaming(req: ChatCompletionRequest) -> bool {
    req.stream == Some(true)
}

/// Whether a chat request asks for a streamed response.
pub fn is_streaming(req: &ChatCompletionRequest) -> (r: bool)
    ensures
        r == spec_is_streaming(*req),
{
    match req.stream {
        Some(true) => true,
        _ => false,
    }
}

/// Two chat requests with the same content — model name, messages, and
/// sampling options — have the same fingerprint, and so the same cache
/// key, whatever distinct values hold them.
pub proof fn lemma_fingerprint_deterministic(r1: ChatCompletionRequest, r2: ChatCompletionRequest)
    requires
        r1.model@ == r2.model@,
        messages_view(r1.messages@) == messages_view(r2.messages@),
        r1.max_tokens == r2.max_tokens,
        r1.temperature_bits == r2.temperature_bits,
        r1.top_p_bits == r2.top_p_bits,
    ensures
        request_fingerprint_bytes(r1) == request_fingerprint_bytes(r2),
        spec_cache_key(r1) == spec_cache_key(r2),
{
}

fn push_u32_le(out: &mut Vec<u8>, x: u32)
    ensures
        final(out)@ == old(out)@ + u32_le(x),
{
    out.push((x % 256) as u8);
    out.push(((x / 256) % 256) as u8);
    out.push(((x / 65536) % 256) as u8);
    out.push(((x / 16777216) % 256) as u8);
    proof {
        assert(out@ =~= old(out)@ + u32_le(x));
    }
}

proof fn lemma_parts_bytes_take_step(ps: Seq<ContentPartView>, i: int)
    requires
        0 <= i < ps.len(),
    ensures
        parts_bytes(ps.subrange(0, i + 1)) == parts_bytes(ps.subrange(0, i)) + part_bytes(ps[i]),
    decreases i,
{
    let a = ps.subrange(0, i + 1);
    let b = ps.subrange(0, i);
    if i == 0 {
        assert(a.drop_first() =~= Seq::<ContentPartView>::empty());
        assert(parts_bytes(a) == part_bytes(a[0]) + parts_bytes(a.drop_first()));
        assert(b =~= Seq::<ContentPartView>::empty());
        assert(parts_bytes(a) =~= parts_bytes(b) + part_bytes(ps[0]));
    } else {
        lemma_parts_bytes_take_step(ps.drop_first(), i - 1);
        assert(a.drop_first() =~= ps.drop_first().subrange(0, i));
        assert(b.drop_first() =~= ps.drop_first().subrange(0, i - 1));
        assert(ps.drop_first()[i - 1] == ps[i]);
        assert(parts_bytes(a) == part_bytes(a[0]) + parts_bytes(a.drop_first()));
        assert(parts_bytes(b) == part_bytes(b[0]) + parts_bytes(b.drop_first()));
        assert(parts_bytes(a) =~= parts_bytes(b) + part_bytes(ps[i]));
    }
}

proof fn lemma_messages_bytes_take_step(ms: Seq<MessageView>, i: int)
    requires
        0 <= i < ms.len(),
    ensures
        messages_bytes(ms.subrange(0, i + 1)) == messages_bytes(ms.subrange(0, i)) + message_bytes(
            ms[i],
        ),
    decreases i,
{
    let a = ms.subrange(0, i + 1);
    let b = ms.subrange(0, i);
    if i == 0 {
        assert(a.drop_first() =~= Seq::<MessageView>::empty());
        assert(messages_bytes(a) == message_bytes(a[0]) + messages_bytes(a.drop_first()));
        assert(b =~= Seq::<MessageView>::empty());
        assert(messages_bytes(a) =~= messages_bytes(b) + message_bytes(ms[0]));
    } else {
        lemma_messages_bytes_take_step(ms.drop_first(), i - 1);
        assert(a.drop_first() =~= ms.drop_first().subrange(0, i));
        assert(b.drop_first() =~= ms.drop_first().subrange(0, i - 1));
        assert(ms.drop_first()[i - 1] == ms[i]);
        assert(messages_bytes(a) == message_bytes(a[0]) + messages_bytes(a.drop_first()));
        assert(messages_bytes(b) == message_bytes(b[0]) + messages_bytes(b.drop_first()));
        assert(messages_bytes(a) =~= messages_bytes(b) + message_bytes(ms[i]));
    }
}

fn append_content_bytes(out: &mut Vec<u8>, c: &ChatMessageContent)
    ensures
        final(out)@ == old(out)@ + content_bytes(content_view(*c)),
{
    match c {
        ChatMessageContent::Text(s) => {
            let mut bytes = s.as_str().as_bytes_vec();
            out.append(&mut bytes);
        },
        ChatMessageContent::Parts(parts) => {
            let ghost pv = parts@.map_values(|p: ContentPart| part_view(p));
            let n = parts.len();
            let mut i: usize = 0;
            while i < n
                invariant
                    n == parts@.len(),
                    pv == parts@.map_values(|p: ContentPart| part_view(p)),
                    0 <= i <= n,
                    out@ == old(out)@ + parts_bytes(pv.subrange(0, i as int)),
                decreases n - i,
            {
                proof {
                    lemma_parts_bytes_take_step(pv, i as int);
                }
                match &parts[i] {
                    ContentPart::Text { text } => {
                        let mut bytes = text.as_str().as_bytes_vec();
                        out.append(&mut bytes);
                    },
                    ContentPart::ImageUrl { image_url } => {
                        let mut bytes = image_url.url.as_str().as_bytes_vec();
                        out.append(&mut bytes);
                    },
                }
                proof {
                    assert(out@ =~= old(out)@ + parts_bytes(pv.subrange(0, i + 1)));
                }
                i = i + 1;
            }
            proof {
                assert(pv.subrange(0, n as int) =~= pv);
            }
        },
    }
}

/// Build the fingerprint transcript of a chat request.
pub fn fingerprint_bytes(req: &ChatCompletionRequest) -> (r: Vec<u8>)
    ensures
        r@ == request_fingerprint_bytes(*req),
{
    let ghost mv = messages_view(req.messages@);
    let mut out = req.model.as_str().as_bytes_vec();
    let n = req.messages.len();
    let mut i: usize = 0;
    while i < n
        invariant
            n == req.messages@.len(),
            mv == messages_view(req.messages@),
            0 <= i <= n,
            out@ == encode_utf8(req.model@) + messages_bytes(mv.subrange(0, i as int)),
        decreases n - i,
    {
        proof {
            lemma_messages_bytes_take_step(mv, i as int);
        }
        let m = &req.messages[i];
        let mut role_bytes = m.role.as_str().as_bytes_vec();
        out.append(&mut role_bytes);
        append_content_bytes(&mut out, &m.content);
        proof {
            assert(out@ =~= encode_utf8(req.model@) + messages_bytes(mv.subrange(0, i + 1)));
        }
        i = i + 1;
    }
    proof {
        assert(mv.subrange(0, n as int) =~= mv);
    }
    if let Some(mt) = req.max_tokens {
        push_u32_le(&mut out, mt);
    }
    if let Some(t) = req.temperature_bits {
        push_u32_le(&mut out, t);
    }
    if let Some(p) = req.top_p_bits {
        push_u32_le(&mut out, p);
    }
    proof {
        assert(out@ =~= request_fingerprint_bytes(*req));
    }
    out
}

/// The cache key of a chat request: the hex SHA-256 of its transcript.
pub fn hash_chat_request(req: &ChatCompletionRequest) -> (r: String)
    ensures
        r@ == spec_cache_key(*req),
        r@.len() == 64,
{
    let bytes = fingerprint_bytes(req);
    sha256_hex(bytes.as_slice())
}

/// The cache key decision: a streaming request never gets one, a buffered
/// request always gets its fingerprint digest.
pub fn chat_cache_key(req: &ChatCompletionRequest, streaming: bool) -> (r: Option<String>)
    ensures
        streaming ==> r is None,
        !streaming ==> (r matches Some(k) && k@ == spec_cache_key(*req)),
{
    if streaming {
        None
    } else {
        Some(hash_chat_request(req))
    }
}

} // verus!
