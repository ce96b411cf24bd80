//! Request and response objects of the gateway's API surface.
//!
//! Sampling parameters (`temperature`, `top_p`) and embedding vectors travel
//! through the dispatch logic untouched, so this crate carries them as the
//! IEEE-754 bit patterns of the original 32-bit values (`u32`); the HTTP
//! layer converts with `f32::to_bits` / `f32::from_bits`.
use vstd::prelude::*;

verus! {

/// Chat message content: one plain string, or an ordered list of parts.
pub enum ChatMessageContent {
    Text(String),
    Parts(Vec<ContentPart>),
}

/// One element of a multi-part chat message.
pub enum ContentPart {
    Text { text: String },
    ImageUrl { image_url: ImageUrl },
}

/// An image reference inside a multi-part chat message.
pub struct ImageUrl {
    pub url: String,
    pub detail: Option<String>,
}

/// One chat message: a role and its content.
pub struct ChatCompletionMessage {
    pub role: String,
    pub content: ChatMessageContent,
}

/// A chat completion request.
pub struct ChatCompletionRequest {
    pub model: String,
    pub messages: Vec<ChatCompletionMessage>,
    pub stream: Option<bool>,
    pub max_tokens: Option<u32>,
    pub temperature_bits: Option<u32>,
    pub top_p_bits: Option<u32>,
}

/// A buffered chat completion response.
#[derive(Clone, Debug)]
pub struct ChatCompletionResponse {
    pub id: String,
    pub object: String,
    pub created: u64,
    pub model: String,
    pub choices: Vec<ChatCompletionChoice>,
    pub usage: Usage,
}

/// One choice of a buffered chat response.
#[derive(Clone, Debug)]
pub struct ChatCompletionChoice {
    pub index: u32,
    pub message: ResponseMessage,
    pub finish_reason: String,
}

/// The assistant message carried by a chat choice.
#[derive(Clone, Debug)]
pub struct ResponseMessage {
    pub role: String,
    pub content: String,
}

/// Token accounting; the core always reports zeroes.
#[derive(Clone, Debug)]
pub struct Usage {
    pub prompt_tokens: u32,
    pub completion_tokens: u32,
    pub total_tokens: u32,
}

/// One frame of a streamed chat response.
pub struct ChatCompletionChunk {
    pub id: String,
    pub object: String,
    pub created: u64,
    pub model: String,
    pub choices: Vec<ChatCompletionChunkChoice>,
}

/// One choice of a streamed chat frame.
pub struct ChatCompletionChunkChoice {
    pub index: u32,
    pub delta: Delta,
    pub finish_reason: Option<String>,
}

/// The incremental part of a streamed chat frame.
pub struct Delta {
    pub role: Option<String>,
    pub content: Option<String>,
}

/// An embeddings request.
pub struct EmbeddingsRequest {
    pub model: String,
    pub input: Vec<String>,
}

/// An embeddings response.
pub struct EmbeddingsResponse {
    pub data: Vec<EmbeddingObject>,
    pub model: String,
    pub object: String,
    pub usage: EmbeddingUsage,
}

/// One embedding vector, as the bit patterns of its 32-bit components.
pub struct EmbeddingObject {
    pub object: String,
    pub index: usize,
    pub embedding: Vec<u32>,
}

/// Token accounting of an embeddings response; always zeroed.
pub struct EmbeddingUsage {
    pub prompt_tokens: u32,
    pub total_tokens: u32,
}

/// An image generation request.
pub struct ImagesGenerationRequest {
    pub model: String,
    pub prompt: String,
    pub n: u32,
    pub size: String,
    pub response_format: String,
}

/// Default number of images when a request names none.
pub fn default_n() -> (r: u32)
    ensures
        r == 1,
{
    1
}

/// Default image size when a request names none.
pub fn default_size() -> (r: String)
    ensures
        r@ == "512x512"@,
{
    String::from_str("512x512")
}

/// Default response encoding when a request names none.
pub fn default_response_format() -> (r: String)
    ensures
        r@ == "b64_json"@,
{
    String::from_str("b64_json")
}

/// An image generation response.
pub struct ImagesGenerationResponse {
    pub created: u64,
    pub data: Vec<ImageDataObject>,
}

/// One generated image, base64-encoded.
pub struct ImageDataObject {
    pub b64_json: Option<String>,
    pub url: Option<String>,
    pub revised_prompt: Option<String>,
}

/// An admin request to install a backend under a name.
pub struct LoadModelRequest {
    pub model: String,
    pub kind: String,
    pub path: Option<String>,
}

/// An admin request to remove a backend by name.
pub struct UnloadModelRequest {
    pub model: String,
    pub kind: String,
}

/// The four registry name lists, as parallel arrays.
pub struct ModelsListResponse {
    pub llm: Vec<String>,
    pub embedding: Vec<String>,
    pub multimodal: Vec<String>,
    pub image: Vec<String>,
}

/// The text a message part contributes to the prompt.
pub open spec fn part_text(p: ContentPart) -> Seq<char> {
    match p {
        ContentPart::Text { text } => text@,
        ContentPart::ImageUrl { .. } => Seq::<char>::empty(),
    }
}

/// The concatenated text of all text parts, in order.
pub open spec fn parts_text(parts: Seq<ContentPart>) -> Seq<char>
    decreases parts.len(),
{
    if parts.len() == 0 {
        Seq::<char>::empty()
    } else {
        part_text(parts[0]) + parts_text(parts.drop_first())
    }
}

/// The image URLs of a part list, in order.
pub open spec fn parts_urls(parts: Seq<ContentPart>) -> Seq<Seq<char>>
    decreases parts.len(),
{
    if parts.len() == 0 {
        Seq::<Seq<char>>::empty()
    } else {
        match parts[0] {
            ContentPart::Text { .. } => parts_urls(parts.drop_first()),
            ContentPart::ImageUrl { image_url } => seq![image_url.url@] + parts_urls(
                parts.drop_first(),
            ),
        }
    }
}

/// The prompt text a content value supplies.
pub open spec fn content_text(c: ChatMessageContent) -> Seq<char> {
    match c {
        ChatMessageContent::Text(s) => s@,
        ChatMessageContent::Parts(v) => parts_text(v@),
    }
}

/// The image URLs a content value supplies.
pub open spec fn content_urls(c: ChatMessageContent) -> Seq<Seq<char>> {
    match c {
        ChatMessageContent::Text(_) => Seq::<Seq<char>>::empty(),
        ChatMessageContent::Parts(v) => parts_urls(v@),
    }
}

/// The prompt of a chat request: the last message's text, or empty.
pub open spec fn prompt_of(msgs: Seq<ChatCompletionMessage>) -> Seq<char> {
    if msgs.len() == 0 {
        Seq::<char>::empty()
    } else {
        content_text(msgs.last().content)
    }
}

/// The image URLs of a chat request: the last message's URLs, or none.
pub open spec fn urls_of(msgs: Seq<ChatCompletionMessage>) -> Seq<Seq<char>> {
    if msgs.len() == 0 {
        Seq::<Seq<char>>::empty()
    } else {
        content_urls(msgs.last().content)
    }
}

} // verus!
