//! The dispatch engine: the four capability registries, the response
//! cache, and the per-request decisions of the worker pool.
//!
//! The engine is driven in steps. A handler first asks
//! `process_chat_request` whether a cached response settles the request or
//! an envelope must be queued. A worker then asks `plan_chat` where the
//! request goes, runs the planned backend — the built-in ones right here,
//! a provider-loaded one outside — and hands the outcome to
//! `complete_chat_buffered` or to `stream::stream_chat_payloads`. The
//! queue, the worker tasks and the permit bound live with the host; every
//! decision between them is verified here.
use vstd::prelude::*;
use vstd::string::StrSliceExecFns;

use crate::cache::ResponseCache;
use crate::chat::{
    build_chat_response, buffered_text, extract_prompt, route_chat, spec_buffered_text, spec_route,
    ChatRoute,
};
use crate::dto::{
    prompt_of, urls_of, ChatCompletionRequest, ChatCompletionResponse, EmbeddingObject,
    EmbeddingsRequest, EmbeddingsResponse, EmbeddingUsage, ImagesGenerationRequest,
    ModelsListResponse,
};
use crate::fingerprint::{chat_cache_key, is_streaming, spec_cache_key, spec_is_streaming};
use crate::registry::{Registry, RuntimeHandle};
use crate::runtime::dummy::{echo_text, vision_text, DummyRuntime};
use crate::runtime::dummy_image::{dummy_image_payload, DummyImageRuntime};
use crate::runtime::{spec_options_from_request, GenerationOptions};

verus! {

/// The dimensionality of the built-in embedding backend.
pub const DUMMY_EMBEDDING_DIMENSION: usize = 384;

/// The capacity of the dispatch queue the host runs between handlers and
/// workers.
pub const DISPATCH_QUEUE_CAPACITY: usize = 100;

/// The unit of work a handler posts on the dispatch queue.
pub enum EngineRequest {
    ChatCompletion { request: ChatCompletionRequest, streaming: bool },
    Embeddings { request: EmbeddingsRequest },
    Images { request: ImagesGenerationRequest },
}

/// What a chat handler does with a request: answer from the cache, or
/// enqueue it with the cache key the response will be stored under.
pub enum ChatSubmission {
    Cached(ChatCompletionResponse),
    Enqueue { streaming: bool, cache_key: Option<String> },
}

/// Where a chat request goes after registry lookup and prompt extraction.
pub enum ChatPlan {
    /// Call the text backend; any image URLs are ignored.
    Text { handle: RuntimeHandle, prompt: String, options: GenerationOptions },
    /// Call the vision backend with the image URLs.
    Vision { handle: RuntimeHandle, prompt: String, image_urls: Vec<String>, options: GenerationOptions },
    /// Only a vision backend exists and the request carries no images.
    RequiresImages,
    /// The model is in neither chat registry.
    NotFound,
}

/// The not-found message for a model name.
pub open spec fn not_found_msg(model: Seq<char>) -> Seq<char> {
    "Model "@ + model + " not found"@
}

fn build_not_found_msg(model: &String) -> (r: String)
    ensures
        r@ == not_found_msg(model@),
{
    let mut m = String::from_str("Model ");
    m.append(model.as_str());
    m.append(" not found");
    m
}

/// Run a chat plan's text call when the handle is a built-in backend;
/// a provider-loaded backend is run by the host instead.
pub fn run_builtin_text(
    handle: &RuntimeHandle,
    prompt: &str,
    options: &GenerationOptions,
) -> (r: Option<Result<String, String>>)
    ensures
        *handle == RuntimeHandle::Dummy ==> (r matches Some(o) && o matches Ok(t) && t@
            == echo_text(prompt@, options.max_tokens as nat)),
        *handle != RuntimeHandle::Dummy ==> r is None,
{
    match handle {
        RuntimeHandle::Dummy => Some(DummyRuntime::new().generate(prompt, options)),
        _ => None,
    }
}

/// Run a chat plan's vision call when the handle is a built-in backend.
pub fn run_builtin_vision(
    handle: &RuntimeHandle,
    prompt: &str,
    image_urls: &Vec<String>,
    options: &GenerationOptions,
) -> (r: Option<Result<String, String>>)
    ensures
        *handle == RuntimeHandle::Dummy ==> (r matches Some(o) && o matches Ok(t) && t@
            == vision_text(prompt@, image_urls@.len(), options.max_tokens as nat)),
        *handle != RuntimeHandle::Dummy ==> r is None,
{
    match handle {
        RuntimeHandle::Dummy => Some(
            DummyRuntime::new().generate_from_vision(prompt, image_urls, options),
        ),
        _ => None,
    }
}

/// Run an image plan when the handle is a built-in backend.
pub fn run_builtin_images(handle: &RuntimeHandle, prompt: &str, n: u32, size: &str) -> (r: Option<
    Result<Vec<Vec<u8>>, String>,
>)
    ensures
        *handle == RuntimeHandle::DummyImage ==> (r matches Some(o) && o matches Ok(images)
            && images@.len() == n && forall|i: int|
            0 <= i < images@.len() ==> images@[i]@ == dummy_image_payload(size@)),
        *handle != RuntimeHandle::DummyImage ==> r is None,
{
    match handle {
        RuntimeHandle::DummyImage => Some(DummyImageRuntime::new().generate_images(prompt, n, size)),
        _ => None,
    }
}

/// Wrap embedding vectors — bit patterns of their 32-bit components — in
/// the response object, preserving input order.
pub fn build_embeddings_response(model: &String, vectors: Vec<Vec<u32>>) -> (r: EmbeddingsResponse)
    ensures
        r.model == model,
        r.object@ == "list"@,
        r.usage.prompt_tokens == 0 && r.usage.total_tokens == 0,
        r.data@.len() == vectors@.len(),
        forall|i: int| 0 <= i < r.data@.len() ==> (#[trigger] r.data@[i]).object@ == "embedding"@,
        forall|i: int| 0 <= i < r.data@.len() ==> (#[trigger] r.data@[i]).index == i,
        forall|i: int|
            0 <= i < r.data@.len() ==> (#[trigger] r.data@[i]).embedding == vectors@[i],
{
    let n = vectors.len();
    let mut data: Vec<EmbeddingObject> = Vec::new();
    let mut i: usize = 0;
    let mut rest = vectors;
    let ghost all = rest@;
    proof {
        assert(all.subrange(0, n as int) =~= all);
    }
    // Take each vector off the front to move it into its response slot.
    while i < n
        invariant
            n == all.len(),
            rest@ == all.subrange(i as int, n as int),
            data@.len() == i,
            0 <= i <= n,
            forall|j: int| 0 <= j < i ==> (#[trigger] data@[j]).object@ == "embedding"@,
            forall|j: int| 0 <= j < i ==> (#[trigger] data@[j]).index == j,
            forall|j: int| 0 <= j < i ==> (#[trigger] data@[j]).embedding == all[j],
        decreases n - i,
    {
        proof {
            assert(all.subrange(i as int, n as int)[0] == all[i as int]);
            assert(all.subrange(i as int, n as int).remove(0) =~= all.subrange(
                i + 1,
                n as int,
            ));
        }
        let v = rest.remove(0);
        data.push(EmbeddingObject { object: String::from_str("embedding"), index: i, embedding: v });
        proof {
            assert(data@[i as int].object@ == "embedding"@);
            assert(data@[i as int].index == i as int);
            assert(data@[i as int].embedding == all[i as int]);
        }
        i = i + 1;
    }
    EmbeddingsResponse {
        data,
        model: model.clone(),
        object: String::from_str("list"),
        usage: EmbeddingUsage { prompt_tokens: 0, total_tokens: 0 },
    }
}

/// The dispatch engine: four registries and the response cache.
pub struct CoreEngine {
    llm_runtimes: Registry,
    embedding_runtimes: Registry,
    multimodal_runtimes: Registry,
    image_runtimes: Registry,
    response_cache: ResponseCache,
}

impl CoreEngine {
    /// The chat-text registry.
    pub closed spec fn spec_llm(self) -> Registry {
        self.llm_runtimes
    }

    /// The embedding registry.
    pub closed spec fn spec_embedding(self) -> Registry {
        self.embedding_runtimes
    }

    /// The multimodal registry.
    pub closed spec fn spec_multimodal(self) -> Registry {
        self.multimodal_runtimes
    }

    /// The image registry.
    pub closed spec fn spec_image(self) -> Registry {
        self.image_runtimes
    }

    /// Well-formed: every registry keeps its names unique.
    pub open spec fn wf(self) -> bool {
        &&& self.spec_llm().wf()
        &&& self.spec_embedding().wf()
        &&& self.spec_multimodal().wf()
        &&& self.spec_image().wf()
    }

    /// A fresh engine: each registry preloaded with exactly its built-in
    /// backend, and an empty response cache.
    pub fn new() -> (r: CoreEngine)
        ensures
            r.wf(),
            forall|m: Seq<char>|
                r.spec_llm().spec_lookup(m) == if m == "dummy-model"@ {
                    Some(RuntimeHandle::Dummy)
                } else {
                    None::<RuntimeHandle>
                },
            forall|m: Seq<char>|
                r.spec_multimodal().spec_lookup(m) == if m == "dummy-model"@ {
                    Some(RuntimeHandle::Dummy)
                } else {
                    None::<RuntimeHandle>
                },
            forall|m: Seq<char>|
                r.spec_embedding().spec_lookup(m) == if m == "dummy-embedding"@ {
                    Some(
                        RuntimeHandle::DummyEmbedding {
                            dimension: DUMMY_EMBEDDING_DIMENSION as usize,
                        },
                    )
                } else {
                    None::<RuntimeHandle>
                },
            forall|m: Seq<char>|
                r.spec_image().spec_lookup(m) == if m == "dummy-image"@ {
                    Some(RuntimeHandle::DummyImage)
                } else {
                    None::<RuntimeHandle>
                },
    {
        let mut llm_runtimes = Registry::new();
        llm_runtimes.insert(String::from_str("dummy-model"), RuntimeHandle::Dummy);
        let mut multimodal_runtimes = Registry::new();
        multimodal_runtimes.insert(String::from_str("dummy-model"), RuntimeHandle::Dummy);
        let mut embedding_runtimes = Registry::new();
        embedding_runtimes.insert(
            String::from_str("dummy-embedding"),
            RuntimeHandle::DummyEmbedding { dimension: DUMMY_EMBEDDING_DIMENSION },
        );
        let mut image_runtimes = Registry::new();
        image_runtimes.insert(String::from_str("dummy-image"), RuntimeHandle::DummyImage);
        CoreEngine {
            llm_runtimes,
            embedding_runtimes,
            multimodal_runtimes,
            image_runtimes,
            response_cache: ResponseCache::new(),
        }
    }

    /// The four registry name lists, in registration order.
    pub fn list_models(&self) -> (r: ModelsListResponse)
        ensures
            r.llm@.len() == self.spec_llm().spec_names().len(),
            forall|i: int|
                0 <= i < r.llm@.len() ==> r.llm@[i]@ == self.spec_llm().spec_names()[i],
            r.embedding@.len() == self.spec_embedding().spec_names().len(),
            forall|i: int|
                0 <= i < r.embedding@.len() ==> r.embedding@[i]@
                    == self.spec_embedding().spec_names()[i],
            r.multimodal@.len() == self.spec_multimodal().spec_names().len(),
            forall|i: int|
                0 <= i < r.multimodal@.len() ==> r.multimodal@[i]@
                    == self.spec_multimodal().spec_names()[i],
            r.image@.len() == self.spec_image().spec_names().len(),
            forall|i: int|
                0 <= i < r.image@.len() ==> r.image@[i]@ == self.spec_image().spec_names()[i],
    {
        ModelsListResponse {
            llm: self.llm_runtimes.names(),
            embedding: self.embedding_runtimes.names(),
            multimodal: self.multimodal_runtimes.names(),
            image: self.image_runtimes.names(),
        }
    }

    /// Install a backend under `name` for the given kind. No provider
    /// loader runs in this crate, so the built-in backend of the kind is
    /// installed whatever `path` says, as the loaders do when a provider is
    /// unavailable; an unknown kind is rejected.
    pub fn load_model(&mut self, kind: &str, name: &String, _path: Option<&String>) -> (r: Result<
        (),
        String,
    >)
        requires
            old(self).wf(),
        ensures
            final(self).wf(),
            kind@ == "llm"@ ==> (r is Ok && final(self).spec_llm().spec_lookup(name@) == Some(
                RuntimeHandle::Dummy,
            ) && final(self).spec_llm().spec_names().contains(name@)),
            kind@ == "embedding"@ ==> (r is Ok && final(self).spec_embedding().spec_lookup(name@)
                == Some(
                RuntimeHandle::DummyEmbedding { dimension: DUMMY_EMBEDDING_DIMENSION as usize },
            ) && final(self).spec_embedding().spec_names().contains(name@)),
            kind@ == "multimodal"@ ==> (r is Ok && final(self).spec_multimodal().spec_lookup(name@)
                == Some(RuntimeHandle::Dummy) && final(self).spec_multimodal().spec_names().contains(name@)),
            kind@ != "llm"@ && kind@ != "embedding"@ && kind@ != "multimodal"@ ==> (r matches Err(m)
                && m@ == "unknown kind"@ && *final(self) == *old(self)),
            kind@ == "llm"@ ==> forall|m: Seq<char>|
                m != name@ ==> final(self).spec_llm().spec_lookup(m) == old(self).spec_llm().spec_lookup(m),
            kind@ == "embedding"@ ==> forall|m: Seq<char>|
                m != name@ ==> final(self).spec_embedding().spec_lookup(m) == old(self).spec_embedding().spec_lookup(m),
            kind@ == "multimodal"@ ==> forall|m: Seq<char>|
                m != name@ ==> final(self).spec_multimodal().spec_lookup(m) == old(self).spec_multimodal().spec_lookup(m),
            kind@ != "llm"@ ==> final(self).spec_llm() == old(self).spec_llm(),
            kind@ != "embedding"@ ==> final(self).spec_embedding() == old(self).spec_embedding(),
            kind@ != "multimodal"@ ==> final(self).spec_multimodal() == old(self).spec_multimodal(),
            final(self).spec_image() == old(self).spec_image(),
    {
        proof {
            reveal_strlit("llm");
            reveal_strlit("embedding");
            reveal_strlit("multimodal");
            assert("llm"@.len() == 3);
            assert("embedding"@.len() == 9);
            assert("multimodal"@.len() == 10);
        }
        if str_is(kind, "llm") {
            self.llm_runtimes.insert(name.clone(), RuntimeHandle::Dummy);
            Ok(())
        } else if str_is(kind, "embedding") {
            self.embedding_runtimes.insert(
                name.clone(),
                RuntimeHandle::DummyEmbedding { dimension: DUMMY_EMBEDDING_DIMENSION },
            );
            Ok(())
        } else if str_is(kind, "multimodal") {
            self.multimodal_runtimes.insert(name.clone(), RuntimeHandle::Dummy);
            Ok(())
        } else {
            Err(String::from_str("unknown kind"))
        }
    }

    /// Remove the entry under `name` for the given kind; removing an
    /// absent name is a no-op, and an unknown kind is rejected.
    pub fn unload_model(&mut self, kind: &str, name: &String) -> (r: Result<(), String>)
        requires
            old(self).wf(),
        ensures
            final(self).wf(),
            kind@ == "llm"@ ==> (r is Ok && final(self).spec_llm().spec_lookup(name@) is None
                && !final(self).spec_llm().spec_names().contains(name@)),
            kind@ == "embedding"@ ==> (r is Ok && final(self).spec_embedding().spec_lookup(
                name@,
            ) is None && !final(self).spec_embedding().spec_names().contains(name@)),
            kind@ == "multimodal"@ ==> (r is Ok && final(self).spec_multimodal().spec_lookup(
                name@,
            ) is None && !final(self).spec_multimodal().spec_names().contains(name@)),
            kind@ != "llm"@ && kind@ != "embedding"@ && kind@ != "multimodal"@ ==> (r matches Err(m)
                && m@ == "unknown kind"@ && *final(self) == *old(self)),
            kind@ == "llm"@ ==> forall|m: Seq<char>|
                m != name@ ==> final(self).spec_llm().spec_lookup(m) == old(self).spec_llm().spec_lookup(m),
            kind@ == "embedding"@ ==> forall|m: Seq<char>|
                m != name@ ==> final(self).spec_embedding().spec_lookup(m) == old(self).spec_embedding().spec_lookup(m),
            kind@ == "multimodal"@ ==> forall|m: Seq<char>|
                m != name@ ==> final(self).spec_multimodal().spec_lookup(m) == old(self).spec_multimodal().spec_lookup(m),
            kind@ != "llm"@ ==> final(self).spec_llm() == old(self).spec_llm(),
            kind@ != "embedding"@ ==> final(self).spec_embedding() == old(self).spec_embedding(),
            kind@ != "multimodal"@ ==> final(self).spec_multimodal() == old(self).spec_multimodal(),
            final(self).spec_image() == old(self).spec_image(),
    {
        proof {
            reveal_strlit("llm");
            reveal_strlit("embedding");
            reveal_strlit("multimodal");
            assert("llm"@.len() == 3);
            assert("embedding"@.len() == 9);
            assert("multimodal"@.len() == 10);
        }
        if str_is(kind, "llm") {
            self.llm_runtimes.remove(name);
            Ok(())
        } else if str_is(kind, "embedding") {
            self.embedding_runtimes.remove(name);
            Ok(())
        } else if str_is(kind, "multimodal") {
            self.multimodal_runtimes.remove(name);
            Ok(())
        } else {
            Err(String::from_str("unknown kind"))
        }
    }

    /// Gate a chat request on the cache: a streaming request is always
    /// enqueued and never keyed; a buffered one is answered from the cache
    /// when a live entry exists, else enqueued under its fingerprint key.
    pub fn process_chat_request(&self, request: &ChatCompletionRequest) -> (r: ChatSubmission)
        ensures
            spec_is_streaming(*request) ==> (r is Enqueue && r->streaming && r->cache_key is None),
            r is Enqueue ==> r->streaming == spec_is_streaming(*request),
            (r is Enqueue && !spec_is_streaming(*request)) ==> (r->cache_key matches Some(k) && k@
                == spec_cache_key(*request)),
            r is Cached ==> !spec_is_streaming(*request),
    {
        let streaming = is_streaming(request);
        let key = chat_cache_key(request, streaming);
        match key {
            Some(k) => {
                match self.response_cache.get(&k) {
                    Some(resp) => ChatSubmission::Cached(resp),
                    None => ChatSubmission::Enqueue { streaming, cache_key: Some(k) },
                }
            },
            None => ChatSubmission::Enqueue { streaming, cache_key: None },
        }
    }

    /// Resolve a chat request against the two chat registries and extract
    /// its prompt: the worker's routing step.
    pub fn plan_chat(&self, request: &ChatCompletionRequest) -> (r: ChatPlan)
        ensures
            ({
                let llm = self.spec_llm().spec_lookup(request.model@);
                let mm = self.spec_multimodal().spec_lookup(request.model@);
                let route = spec_route(
                    urls_of(request.messages@).len() > 0,
                    llm is Some,
                    mm is Some,
                );
                let opts = spec_options_from_request(
                    request.max_tokens,
                    request.temperature_bits,
                    request.top_p_bits,
                );
                &&& (route == ChatRoute::Text || route == ChatRoute::TextIgnoringImages) ==> (
                r matches ChatPlan::Text { handle, prompt, options } && Some(handle) == llm
                    && prompt@ == prompt_of(request.messages@) && options == opts)
                &&& route == ChatRoute::Vision ==> (r matches ChatPlan::Vision {
                    handle,
                    prompt,
                    image_urls,
                    options,
                } && Some(handle) == mm && prompt@ == prompt_of(request.messages@)
                    && image_urls@.len() == urls_of(request.messages@).len() && (forall|i: int|
                    0 <= i < image_urls@.len() ==> image_urls@[i]@ == urls_of(request.messages@)[i])
                    && options == opts)
                &&& route == ChatRoute::RequiresImages ==> r is RequiresImages
                &&& route == ChatRoute::NotFound ==> r is NotFound
            }),
    {
        let (prompt, image_urls) = extract_prompt(&request.messages);
        let llm = self.llm_runtimes.lookup(&request.model);
        let mm = self.multimodal_runtimes.lookup(&request.model);
        let options = GenerationOptions::from_request(
            request.max_tokens,
            request.temperature_bits,
            request.top_p_bits,
        );
        let route = route_chat(image_urls.len() > 0, llm.is_some(), mm.is_some());
        match route {
            ChatRoute::Text | ChatRoute::TextIgnoringImages => {
                let handle = llm.unwrap().duplicate();
                ChatPlan::Text { handle, prompt, options }
            },
            ChatRoute::Vision => {
                let handle = mm.unwrap().duplicate();
                ChatPlan::Vision { handle, prompt, image_urls, options }
            },
            ChatRoute::RequiresImages => ChatPlan::RequiresImages,
            ChatRoute::NotFound => ChatPlan::NotFound,
        }
    }

    /// Build the buffered chat response around a backend outcome — a
    /// failure degrades to empty content — under a fresh id and the
    /// current time, and cache it under the key the submission assigned,
    /// when one was.
    pub fn complete_chat_buffered(
        &self,
        model: String,
        outcome: Result<String, String>,
        cache_key: Option<&String>,
    ) -> (r: ChatCompletionResponse)
        ensures
            r.id@.len() == 36,
            r.object@ == "chat.completion"@,
            r.model == model,
            r.choices@.len() == 1,
            r.choices@[0].index == 0,
            r.choices@[0].message.role@ == "assistant"@,
            r.choices@[0].message.content@ == spec_buffered_text(outcome),
            r.choices@[0].finish_reason@ == "stop"@,
            r.usage.prompt_tokens == 0 && r.usage.completion_tokens == 0 && r.usage.total_tokens
                == 0,
    {
        let content = buffered_text(outcome);
        let id = crate::sys::fresh_request_id();
        let created = crate::sys::unix_now();
        let response = build_chat_response(id, created, model, content);
        if let Some(key) = cache_key {
            self.response_cache.insert(key, &response);
        }
        response
    }

    /// Resolve an embeddings request: the handle to run, or the not-found
    /// error.
    pub fn process_embedding_request(&self, request: &EmbeddingsRequest) -> (r: Result<
        RuntimeHandle,
        String,
    >)
        ensures
            self.spec_embedding().spec_lookup(request.model@) matches Some(h) ==> r == Ok::<
                RuntimeHandle,
                String,
            >(h),
            self.spec_embedding().spec_lookup(request.model@) is None ==> (r matches Err(m) && m@
                == not_found_msg(request.model@)),
    {
        match self.embedding_runtimes.lookup(&request.model) {
            Some(h) => Ok(h.duplicate()),
            None => Err(build_not_found_msg(&request.model)),
        }
    }

    /// Resolve an image generation request: the handle to run, or the
    /// not-found error.
    pub fn process_image_request(&self, request: &ImagesGenerationRequest) -> (r: Result<
        RuntimeHandle,
        String,
    >)
        ensures
            self.spec_image().spec_lookup(request.model@) matches Some(h) ==> r == Ok::<
                RuntimeHandle,
                String,
            >(h),
            self.spec_image().spec_lookup(request.model@) is None ==> (r matches Err(m) && m@
                == not_found_msg(request.model@)),
    {
        match self.image_runtimes.lookup(&request.model) {
            Some(h) => Ok(h.duplicate()),
            None => Err(build_not_found_msg(&request.model)),
        }
    }
}

/// Whether `s` reads exactly as `lit`.
fn str_is(s: &str, lit: &str) -> (r: bool)
    ensures
        r == (s@ == lit@),
{
    let a = s.to_owned();
    let b = lit.to_owned();
    a == b
}

} // verus!
