//! Chat dispatch logic: prompt extraction from the terminal message, the
//! routing decision between text and vision backends, and assembly of the
//! buffered response object.
use vstd::prelude::*;

use crate::dto::{
    content_text, content_urls, parts_text, parts_urls, part_text, prompt_of, urls_of,
    ChatCompletionChoice, ChatCompletionMessage, ChatCompletionResponse, ChatMessageContent,
    ContentPart, ResponseMessage, Usage,
};

verus! {

proof fn lemma_parts_text_take_step(parts: Seq<ContentPart>, i: int)
    requires
        0 <= i < parts.len(),
    ensures
        parts_text(parts.subrange(0, i + 1)) == parts_text(parts.subrange(0, i)) + part_text(
            parts[i],
        ),
    decreases i,
{
    let a = parts.subrange(0, i + 1);
    let b = parts.subrange(0, i);
    if i == 0 {
        assert(a.drop_first() =~= Seq::<ContentPart>::empty());
        assert(parts_text(a) == part_text(a[0]) + parts_text(a.drop_first()));
        assert(b =~= Seq::<ContentPart>::empty());
        assert(parts_text(b) + part_text(parts[0]) =~= part_text(parts[0]));
        assert(parts_text(a) =~= part_text(parts[0]));
    } else {
        lemma_parts_text_take_step(parts.drop_first(), i - 1);
        assert(a.drop_first() =~= parts.drop_first().subrange(0, i));
        assert(b.drop_first() =~= parts.drop_first().subrange(0, i - 1));
        assert(parts.drop_first()[i - 1] == parts[i]);
        assert(parts_text(a) == part_text(a[0]) + parts_text(a.drop_first()));
        assert(parts_text(b) == part_text(b[0]) + parts_text(b.drop_first()));
        assert(parts_text(a) =~= parts_text(b) + part_text(parts[i]));
    }
}

proof fn lemma_parts_urls_take_step(parts: Seq<ContentPart>, i: int)
    requires
        0 <= i < parts.len(),
    ensures
        parts_urls(parts.subrange(0, i + 1)) == parts_urls(parts.subrange(0, i)) + (match parts[i] {
            ContentPart::Text { .. } => Seq::<Seq<char>>::empty(),
            ContentPart::ImageUrl { image_url } => seq![image_url.url@],
        }),
    decreases i,
{
    let a = parts.subrange(0, i + 1);
    let b = parts.subrange(0, i);
    let tail = (match parts[i] {
        ContentPart::Text { .. } => Seq::<Seq<char>>::empty(),
        ContentPart::ImageUrl { image_url } => seq![image_url.url@],
    });
    if i == 0 {
        assert(a.drop_first() =~= Seq::<ContentPart>::empty());
        assert(parts_urls(a.drop_first()) == Seq::<Seq<char>>::empty());
        assert(b =~= Seq::<ContentPart>::empty());
        assert(parts_urls(b) == Seq::<Seq<char>>::empty());
        assert(a[0] == parts[0]);
        assert(parts_urls(a) =~= parts_urls(b) + tail);
    } else {
        lemma_parts_urls_take_step(parts.drop_first(), i - 1);
        assert(a.drop_first() =~= parts.drop_first().subrange(0, i));
        assert(b.drop_first() =~= parts.drop_first().subrange(0, i - 1));
        assert(parts.drop_first()[i - 1] == parts[i]);
        assert(a[0] == parts[0] && b[0] == parts[0]);
        assert(parts_urls(a) =~= parts_urls(b) + tail);
    }
}

/// Pull the prompt text and the image URLs out of a message list: both come
/// from the terminal message alone, and an empty list yields empty values.
pub fn extract_prompt(messages: &Vec<ChatCompletionMessage>) -> (r: (String, Vec<String>))
    ensures
        r.0@ == prompt_of(messages@),
        r.1@.len() == urls_of(messages@).len(),
        forall|i: int| 0 <= i < r.1@.len() ==> r.1@[i]@ == urls_of(messages@)[i],
{
    if messages.len() == 0 {
        return (String::new(), Vec::new());
    }
    let last = &messages[messages.len() - 1];
    match &last.content {
        ChatMessageContent::Text(s) => (s.clone(), Vec::new()),
        ChatMessageContent::Parts(parts) => {
            let n = parts.len();
            let mut text = String::new();
            let mut urls: Vec<String> = Vec::new();
            let mut i: usize = 0;
            while i < n
                invariant
                    n == parts@.len(),
                    0 <= i <= n,
                    text@ == parts_text(parts@.subrange(0, i as int)),
                    urls@.len() == parts_urls(parts@.subrange(0, i as int)).len(),
                    forall|j: int|
                        0 <= j < urls@.len() ==> urls@[j]@ == parts_urls(
                            parts@.subrange(0, i as int),
                        )[j],
                decreases n - i,
            {
                proof {
                    lemma_parts_text_take_step(parts@, i as int);
                    lemma_parts_urls_take_step(parts@, i as int);
                }
                match &parts[i] {
                    ContentPart::Text { text: t } => {
                        text.append(t.as_str());
                    },
                    ContentPart::ImageUrl { image_url } => {
                        urls.push(image_url.url.clone());
                    },
                }
                i = i + 1;
            }
            proof {
                assert(parts@.subrange(0, n as int) =~= parts@);
            }
            (text, urls)
        },
    }
}

/// The routing decision for a chat request, from the presence of image
/// URLs and of the model name in the text and multimodal registries.
#[derive(Clone, Copy, Debug, PartialEq, Eq, Structural)]
pub enum ChatRoute {
    /// Call the text backend.
    Text,
    /// Call the vision backend.
    Vision,
    /// Only a text backend exists: call it and ignore the images.
    TextIgnoringImages,
    /// Only a vision backend exists but the request has no images.
    RequiresImages,
    /// The model name is in neither registry.
    NotFound,
}

/// The routing table of the chat dispatcher.
pub open spec fn spec_route(has_images: bool, has_llm: bool, has_mm: bool) -> ChatRoute {
    if !has_llm && !has_mm {
        ChatRoute::NotFound
    } else if !has_images && has_llm {
        ChatRoute::Text
    } else if !has_images {
        ChatRoute::RequiresImages
    } else if has_mm {
        ChatRoute::Vision
    } else {
        ChatRoute::TextIgnoringImages
    }
}

/// Decide where a chat request goes.
pub fn route_chat(has_images: bool, has_llm: bool, has_mm: bool) -> (r: ChatRoute)
    ensures
        r == spec_route(has_images, has_llm, has_mm),
{
    if !has_llm && !has_mm {
        ChatRoute::NotFound
    } else if !has_images && has_llm {
        ChatRoute::Text
    } else if !has_images {
        ChatRoute::RequiresImages
    } else if has_mm {
        ChatRoute::Vision
    } else {
        ChatRoute::TextIgnoringImages
    }
}

/// What a buffered chat response carries as content: the generated text,
/// or the empty string when the backend failed.
pub open spec fn spec_buffered_text(outcome: Result<String, String>) -> Seq<char> {
    match outcome {
        Ok(t) => t@,
        Err(_) => Seq::<char>::empty(),
    }
}

/// Reduce a backend outcome to the buffered response content.
pub fn buffered_text(outcome: Result<String, String>) -> (r: String)
    ensures
        r@ == spec_buffered_text(outcome),
{
    match outcome {
        Ok(t) => t,
        Err(_) => String::new(),
    }
}

/// Assemble the buffered chat response object around the generated text.
pub fn build_chat_response(id: String, created: u64, model: String, content: String) -> (r:
    ChatCompletionResponse)
    ensures
        r.id == id,
        r.object@ == "chat.completion"@,
        r.created == created,
        r.model == model,
        r.choices@.len() == 1,
        r.choices@[0].index == 0,
        r.choices@[0].message.role@ == "assistant"@,
        r.choices@[0].message.content == content,
        r.choices@[0].finish_reason@ == "stop"@,
        r.usage.prompt_tokens == 0 && r.usage.completion_tokens == 0 && r.usage.total_tokens == 0,
{
    let mut choices: Vec<ChatCompletionChoice> = Vec::new();
    choices.push(
        ChatCompletionChoice {
            index: 0,
            message: ResponseMessage { role: String::from_str("assistant"), content },
            finish_reason: String::from_str("stop"),
        },
    );
    ChatCompletionResponse {
        id,
        object: String::from_str("chat.completion"),
        created,
        model,
        choices,
        usage: Usage { prompt_tokens: 0, completion_tokens: 0, total_tokens: 0 },
    }
}

} // verus!
