use base64::Engine as _;

use llm_serving::chat::ChatRoute;
use llm_serving::chat::route_chat;
use llm_serving::dto::{
    ChatCompletionMessage, ChatCompletionRequest, ChatMessageContent, ContentPart,
    EmbeddingsRequest, ImageUrl, ImagesGenerationRequest,
};
use llm_serving::engine::{
    build_embeddings_response, run_builtin_images, run_builtin_text, run_builtin_vision,
    ChatPlan, ChatSubmission, CoreEngine, DUMMY_EMBEDDING_DIMENSION,
};
use llm_serving::registry::RuntimeHandle;
use llm_serving::runtime::dummy_embedding::DummyEmbeddingRuntime;
use llm_serving::stream::{render_stream_payloads, stream_chat_payloads};

fn text_chat_request(model: &str, text: &str, stream: bool, max_tokens: Option<u32>) -> ChatCompletionRequest {
    ChatCompletionRequest {
        model: model.to_string(),
        messages: vec![ChatCompletionMessage {
            role: "user".to_string(),
            content: ChatMessageContent::Text(text.to_string()),
        }],
        stream: Some(stream),
        max_tokens,
        temperature_bits: None,
        top_p_bits: None,
    }
}

#[test]
fn registries_are_preloaded_with_dummies() {
    let engine = CoreEngine::new();
    let list = engine.list_models();
    assert!(list.llm.iter().any(|m| m == "dummy-model"));
    assert!(list.multimodal.iter().any(|m| m == "dummy-model"));
    assert!(list.embedding.iter().any(|m| m == "dummy-embedding"));
    assert!(list.image.iter().any(|m| m == "dummy-image"));
}

#[test]
fn buffered_chat_echoes_prompt_within_token_budget() {
    let engine = CoreEngine::new();
    let req = text_chat_request("dummy-model", "hello", false, Some(3));

    let submission = engine.process_chat_request(&req);
    let key = match submission {
        ChatSubmission::Enqueue { streaming, cache_key } => {
            assert!(!streaming);
            cache_key.expect("buffered submissions carry a cache key")
        }
        ChatSubmission::Cached(_) => panic!("fresh engine cannot have a cached entry"),
    };

    let plan = engine.plan_chat(&req);
    let (handle, prompt, options) = match plan {
        ChatPlan::Text { handle, prompt, options } => (handle, prompt, options),
        _ => panic!("a text-only request against dummy-model routes to text generation"),
    };
    let outcome = run_builtin_text(&handle, &prompt, &options)
        .expect("the dummy backend runs in-process");

    let response = engine.complete_chat_buffered(req.model.clone(), outcome, Some(&key));
    assert_eq!(response.object, "chat.completion");
    assert_eq!(response.model, "dummy-model");
    assert!(!response.id.is_empty());
    assert_eq!(response.id.chars().count(), 36);
    let content = &response.choices[0].message.content;
    assert!(content.starts_with("Echo:"));
    assert!(content.len() <= "Echo: ".len() + 3);
    assert_eq!(content, "Echo: hel");
}

#[test]
fn second_identical_buffered_request_hits_the_cache() {
    let engine = CoreEngine::new();
    let req = text_chat_request("dummy-model", "hello again", false, Some(64));

    let key = match engine.process_chat_request(&req) {
        ChatSubmission::Enqueue { cache_key, .. } => cache_key.unwrap(),
        ChatSubmission::Cached(_) => panic!("first submission cannot hit"),
    };
    let plan = engine.plan_chat(&req);
    let (handle, prompt, options) = match plan {
        ChatPlan::Text { handle, prompt, options } => (handle, prompt, options),
        _ => panic!("text route expected"),
    };
    let outcome = run_builtin_text(&handle, &prompt, &options).unwrap();
    let first = engine.complete_chat_buffered(req.model.clone(), outcome, Some(&key));

    // An identical request, resubmitted: the cache answers it.
    let req2 = text_chat_request("dummy-model", "hello again", false, Some(64));
    match engine.process_chat_request(&req2) {
        ChatSubmission::Cached(second) => {
            assert_eq!(
                second.choices[0].message.content,
                first.choices[0].message.content
            );
            assert_eq!(second.id, first.id);
        }
        ChatSubmission::Enqueue { .. } => panic!("identical buffered request must hit the cache"),
    }
}

#[test]
fn streaming_requests_are_never_cached() {
    let engine = CoreEngine::new();
    let req = text_chat_request("dummy-model", "stream please", true, None);
    for _ in 0..2 {
        match engine.process_chat_request(&req) {
            ChatSubmission::Enqueue { streaming, cache_key } => {
                assert!(streaming);
                assert!(cache_key.is_none());
            }
            ChatSubmission::Cached(_) => panic!("streaming requests never hit the cache"),
        }
    }
}

#[test]
fn stream_payloads_frame_chunks_and_sentinel() {
    let frames = render_stream_payloads(
        "id-1",
        1234,
        "dummy-model",
        &Ok("Echo: stream please".to_string()),
    );
    assert_eq!(frames.len(), 4);
    assert!(frames[0].contains("chat.completion.chunk"));
    assert!(frames[0].contains("\"role\":\"assistant\""));
    assert!(frames[0].contains("\"finish_reason\":null"));
    assert!(frames[1].contains("\"content\":\"Echo: stream please\""));
    assert!(frames[2].contains("\"delta\":{}"));
    assert!(frames[2].contains("\"finish_reason\":\"stop\""));
    assert_eq!(frames[3], "[DONE]");

    // The chunk frames are well-formed JSON with the shared id and stamp.
    for frame in &frames[0..3] {
        let v: serde_json::Value = serde_json::from_str(frame).unwrap();
        assert_eq!(v["id"], "id-1");
        assert_eq!(v["object"], "chat.completion.chunk");
        assert_eq!(v["created"], 1234);
        assert_eq!(v["model"], "dummy-model");
        assert_eq!(v["choices"][0]["index"], 0);
    }
}

#[test]
fn stream_payloads_embed_backend_errors_in_content() {
    let frames = render_stream_payloads("id-2", 1, "m", &Err("backend down".to_string()));
    assert_eq!(frames.len(), 4);
    assert!(frames[1].contains("[error: backend down]"));
    assert!(frames[2].contains("\"finish_reason\":\"stop\""));
    assert_eq!(frames[3], "[DONE]");
}

#[test]
fn stream_payloads_share_one_fresh_id_and_stamp() {
    let frames = stream_chat_payloads("dummy-model", &Ok("hi".to_string()));
    assert_eq!(frames.len(), 4);
    assert_eq!(frames[3], "[DONE]");
    let chunks: Vec<serde_json::Value> = frames[0..3]
        .iter()
        .map(|f| serde_json::from_str(f).unwrap())
        .collect();
    let id = chunks[0]["id"].as_str().unwrap();
    assert_eq!(id.chars().count(), 36);
    let created = chunks[0]["created"].as_u64().unwrap();
    for c in &chunks {
        assert_eq!(c["id"], id);
        assert_eq!(c["created"], created);
        assert_eq!(c["model"], "dummy-model");
    }
}

#[test]
fn chat_with_image_url_routes_to_multimodal() {
    let engine = CoreEngine::new();
    let req = ChatCompletionRequest {
        model: "dummy-model".to_string(),
        messages: vec![ChatCompletionMessage {
            role: "user".to_string(),
            content: ChatMessageContent::Parts(vec![
                ContentPart::Text { text: "look at this".to_string() },
                ContentPart::ImageUrl {
                    image_url: ImageUrl {
                        url: "https://example.com/img.jpg".to_string(),
                        detail: None,
                    },
                },
            ]),
        }],
        stream: Some(false),
        max_tokens: Some(50),
        temperature_bits: None,
        top_p_bits: None,
    };
    let plan = engine.plan_chat(&req);
    let (handle, prompt, image_urls, options) = match plan {
        ChatPlan::Vision { handle, prompt, image_urls, options } => {
            (handle, prompt, image_urls, options)
        }
        _ => panic!("a request with image parts routes to vision generation"),
    };
    assert_eq!(prompt, "look at this");
    assert_eq!(image_urls, vec!["https://example.com/img.jpg".to_string()]);
    let content = run_builtin_vision(&handle, &prompt, &image_urls, &options)
        .unwrap()
        .unwrap();
    assert!(content.starts_with("Echo(Vision): "));
    assert!(content.contains("images=1"));
}

#[test]
fn chat_routing_table_matches_registry_state() {
    assert_eq!(route_chat(false, true, true), ChatRoute::Text);
    assert_eq!(route_chat(false, true, false), ChatRoute::Text);
    assert_eq!(route_chat(false, false, true), ChatRoute::RequiresImages);
    assert_eq!(route_chat(true, true, true), ChatRoute::Vision);
    assert_eq!(route_chat(true, false, true), ChatRoute::Vision);
    assert_eq!(route_chat(true, true, false), ChatRoute::TextIgnoringImages);
    assert_eq!(route_chat(false, false, false), ChatRoute::NotFound);
    assert_eq!(route_chat(true, false, false), ChatRoute::NotFound);
}

#[test]
fn unknown_chat_model_plans_not_found() {
    let engine = CoreEngine::new();
    let req = text_chat_request("missing-model", "hi", false, None);
    assert!(matches!(engine.plan_chat(&req), ChatPlan::NotFound));
}

#[test]
fn embeddings_preserve_order_shape_and_norm() {
    let engine = CoreEngine::new();
    let req = EmbeddingsRequest {
        model: "dummy-embedding".to_string(),
        input: vec!["hello".to_string(), "world".to_string()],
    };
    let handle = engine.process_embedding_request(&req).unwrap();
    let dimension = match handle {
        RuntimeHandle::DummyEmbedding { dimension } => dimension,
        _ => panic!("dummy-embedding resolves to the built-in embedding backend"),
    };
    assert_eq!(dimension, DUMMY_EMBEDDING_DIMENSION);

    // The float scaling and L2 normalization the host applies around the
    // verified integer core.
    let runtime = DummyEmbeddingRuntime::new(dimension);
    let mut vectors: Vec<Vec<u32>> = Vec::new();
    for text in &req.input {
        let raw = runtime.raw_components(text);
        assert_eq!(raw.len(), 384);
        let mut v: Vec<f32> = raw.iter().map(|&c| c as f32 / 1000.0).collect();
        let norm: f32 = v.iter().map(|x| x * x).sum::<f32>().sqrt();
        if norm > 0.0 {
            for x in &mut v {
                *x /= norm;
            }
        }
        let norm_after: f32 = v.iter().map(|x| x * x).sum::<f32>().sqrt();
        assert!((norm_after - 1.0).abs() < 1e-3);
        vectors.push(v.iter().map(|x| x.to_bits()).collect());
    }

    let response = build_embeddings_response(&req.model, vectors.clone());
    assert_eq!(response.object, "list");
    assert_eq!(response.model, "dummy-embedding");
    assert_eq!(response.data.len(), 2);
    for (i, item) in response.data.iter().enumerate() {
        assert_eq!(item.object, "embedding");
        assert_eq!(item.index, i);
        assert_eq!(item.embedding, vectors[i]);
        assert_eq!(item.embedding.len(), 384);
    }
}

#[test]
fn embedding_lookup_of_unknown_model_reports_not_found() {
    let engine = CoreEngine::new();
    let req = EmbeddingsRequest { model: "nope".to_string(), input: vec![] };
    let err = engine.process_embedding_request(&req).unwrap_err();
    assert_eq!(err, "Model nope not found");
}

#[test]
fn images_generation_returns_n_base64_payloads() {
    let engine = CoreEngine::new();
    let req = ImagesGenerationRequest {
        model: "dummy-image".to_string(),
        prompt: "a cute cat".to_string(),
        n: 2,
        size: "256x256".to_string(),
        response_format: "b64_json".to_string(),
    };
    let handle = engine.process_image_request(&req).unwrap();
    let images = run_builtin_images(&handle, &req.prompt, req.n, &req.size)
        .unwrap()
        .unwrap();
    assert_eq!(images.len(), 2);
    assert_eq!(images[0], b"DUMMY_PNG:256x256:".to_vec());

    let response = llm_serving::encoding::build_images_response(&images, 1234);
    assert_eq!(response.data.len(), 2);
    for item in &response.data {
        let b64 = item.b64_json.as_ref().unwrap();
        assert!(!b64.is_empty());
        let decoded = base64::engine::general_purpose::STANDARD.decode(b64).unwrap();
        assert_eq!(decoded, b"DUMMY_PNG:256x256:".to_vec());
        assert!(item.url.is_none());
        assert!(item.revised_prompt.is_none());
    }
}

#[test]
fn admin_can_load_and_unload_embedding_model() {
    let mut engine = CoreEngine::new();
    let list = engine.list_models();
    assert!(list.embedding.iter().any(|m| m == "dummy-embedding"));

    let name = "custom-embed".to_string();
    engine.load_model("embedding", &name, None).unwrap();
    let list = engine.list_models();
    assert!(list.embedding.iter().any(|m| m == "custom-embed"));

    engine.unload_model("embedding", &name).unwrap();
    let list = engine.list_models();
    assert!(!list.embedding.iter().any(|m| m == "custom-embed"));
}

#[test]
fn admin_can_load_and_unload_llm_model() {
    let mut engine = CoreEngine::new();
    let name = "custom-llm".to_string();
    engine.load_model("llm", &name, None).unwrap();
    let list = engine.list_models();
    assert!(list.llm.iter().any(|m| m == "custom-llm"));

    engine.unload_model("llm", &name).unwrap();
    let list = engine.list_models();
    assert!(!list.llm.iter().any(|m| m == "custom-llm"));
}

#[test]
fn admin_rejects_unknown_kind_and_tolerates_unknown_name() {
    let mut engine = CoreEngine::new();
    let name = "whatever".to_string();
    assert_eq!(engine.load_model("image", &name, None).unwrap_err(), "unknown kind");
    assert_eq!(engine.unload_model("nonsense", &name).unwrap_err(), "unknown kind");
    // Removing a name that was never loaded is a no-op, not an error.
    engine.unload_model("llm", &name).unwrap();
    assert!(engine.list_models().llm.iter().any(|m| m == "dummy-model"));
}

#[test]
fn loading_an_existing_name_overwrites_without_duplicating() {
    let mut engine = CoreEngine::new();
    let name = "twice".to_string();
    engine.load_model("llm", &name, None).unwrap();
    engine.load_model("llm", &name, None).unwrap();
    let list = engine.list_models();
    assert_eq!(list.llm.iter().filter(|m| *m == "twice").count(), 1);
}
