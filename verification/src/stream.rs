//! Framing of a streamed chat response.
//!
//! A stream is exactly four payloads in order: a role chunk, one content
//! chunk carrying the whole generated text (or an error marker), a done
//! chunk, and the literal `[DONE]` sentinel. Chunk objects are assembled
//! here and rendered as JSON text; the transport wraps each payload in one
//! SSE data frame.
use vstd::prelude::*;

use crate::dto::{ChatCompletionChunk, ChatCompletionChunkChoice, Delta};
use crate::jsonfmt::{json_escape, json_escaped};
use crate::strutil::{dec_str, u64_to_dec};

verus! {

/// The JSON object text of a chunk delta.
pub open spec fn delta_json(d: Delta) -> Seq<char> {
    if d.role is Some && d.content is Some {
        "{\"role\":\""@ + json_escaped(d.role->0@) + "\",\"content\":\""@ + json_escaped(
            d.content->0@,
        ) + "\"}"@
    } else if d.role is Some {
        "{\"role\":\""@ + json_escaped(d.role->0@) + "\"}"@
    } else if d.content is Some {
        "{\"content\":\""@ + json_escaped(d.content->0@) + "\"}"@
    } else {
        "{}"@
    }
}

/// The JSON value text of a finish reason: a string or `null`.
pub open spec fn finish_json(f: Option<String>) -> Seq<char> {
    match f {
        Some(s) => "\""@ + json_escaped(s@) + "\""@,
        None => "null"@,
    }
}

/// The JSON text of a single-choice chunk object.
pub open spec fn chunk_json_of(c: ChatCompletionChunk) -> Seq<char>
    recommends
        c.choices@.len() == 1,
{
    "{\"id\":\""@ + json_escaped(c.id@) + "\",\"object\":\""@ + json_escaped(c.object@)
        + "\",\"created\":"@ + dec_str(c.created as nat) + ",\"model\":\""@ + json_escaped(c.model@)
        + "\",\"choices\":[{\"index\":"@ + dec_str(c.choices@[0].index as nat) + ",\"delta\":"@
        + delta_json(c.choices@[0].delta) + ",\"finish_reason\":"@ + finish_json(
        c.choices@[0].finish_reason,
    ) + "}]}"@
}

/// The first frame of a stream: the assistant role, no finish reason.
pub open spec fn role_chunk_json(id: Seq<char>, created: nat, model: Seq<char>) -> Seq<char> {
    "{\"id\":\""@ + json_escaped(id) + "\",\"object\":\""@ + json_escaped(
        "chat.completion.chunk"@,
    ) + "\",\"created\":"@ + dec_str(created) + ",\"model\":\""@ + json_escaped(model)
        + "\",\"choices\":[{\"index\":"@ + dec_str(0) + ",\"delta\":"@ + ("{\"role\":\""@
        + json_escaped("assistant"@) + "\"}"@) + ",\"finish_reason\":"@ + "null"@ + "}]}"@
}

/// The second frame: the whole generated text, no finish reason.
pub open spec fn content_chunk_json(
    id: Seq<char>,
    created: nat,
    model: Seq<char>,
    text: Seq<char>,
) -> Seq<char> {
    "{\"id\":\""@ + json_escaped(id) + "\",\"object\":\""@ + json_escaped(
        "chat.completion.chunk"@,
    ) + "\",\"created\":"@ + dec_str(created) + ",\"model\":\""@ + json_escaped(model)
        + "\",\"choices\":[{\"index\":"@ + dec_str(0) + ",\"delta\":"@ + ("{\"content\":\""@
        + json_escaped(text) + "\"}"@) + ",\"finish_reason\":"@ + "null"@ + "}]}"@
}

/// The third frame: an empty delta and the `stop` finish reason.
pub open spec fn done_chunk_json(id: Seq<char>, created: nat, model: Seq<char>) -> Seq<char> {
    "{\"id\":\""@ + json_escaped(id) + "\",\"object\":\""@ + json_escaped(
        "chat.completion.chunk"@,
    ) + "\",\"created\":"@ + dec_str(created) + ",\"model\":\""@ + json_escaped(model)
        + "\",\"choices\":[{\"index\":"@ + dec_str(0) + ",\"delta\":"@ + "{}"@
        + ",\"finish_reason\":"@ + ("\""@ + json_escaped("stop"@) + "\""@) + "}]}"@
}

/// What the content chunk carries: the generated text, or the backend
/// error wrapped in an error marker.
pub open spec fn spec_stream_text(outcome: Result<String, String>) -> Seq<char> {
    match outcome {
        Ok(t) => t@,
        Err(e) => "[error: "@ + e@ + "]"@,
    }
}

/// Assemble one single-choice chunk object.
pub fn build_chunk(
    id: &str,
    created: u64,
    model: &str,
    delta: Delta,
    finish_reason: Option<String>,
) -> (r: ChatCompletionChunk)
    ensures
        r.id@ == id@,
        r.object@ == "chat.completion.chunk"@,
        r.created == created,
        r.model@ == model@,
        r.choices@.len() == 1,
        r.choices@[0].index == 0,
        r.choices@[0].delta == delta,
        r.choices@[0].finish_reason == finish_reason,
{
    let mut choices: Vec<ChatCompletionChunkChoice> = Vec::new();
    choices.push(ChatCompletionChunkChoice { index: 0, delta, finish_reason });
    ChatCompletionChunk {
        id: id.to_owned(),
        object: String::from_str("chat.completion.chunk"),
        created,
        model: model.to_owned(),
        choices,
    }
}

/// Render a single-choice chunk object as JSON text.
pub fn render_chunk_json(c: &ChatCompletionChunk) -> (r: String)
    requires
        c.choices@.len() == 1,
    ensures
        r@ == chunk_json_of(*c),
{
    let mut out = String::from_str("{\"id\":\"");
    let escaped_id = json_escape(c.id.as_str());
    out.append(escaped_id.as_str());
    out.append("\",\"object\":\"");
    let escaped_object = json_escape(c.object.as_str());
    out.append(escaped_object.as_str());
    out.append("\",\"created\":");
    let created_dec = u64_to_dec(c.created);
    out.append(created_dec.as_str());
    out.append(",\"model\":\"");
    let escaped_model = json_escape(c.model.as_str());
    out.append(escaped_model.as_str());
    out.append("\",\"choices\":[{\"index\":");
    let index_dec = u64_to_dec(c.choices[0].index as u64);
    out.append(index_dec.as_str());
    out.append(",\"delta\":");
    match (&c.choices[0].delta.role, &c.choices[0].delta.content) {
        (Some(role), Some(content)) => {
            out.append("{\"role\":\"");
            let e = json_escape(role.as_str());
            out.append(e.as_str());
            out.append("\",\"content\":\"");
            let e2 = json_escape(content.as_str());
            out.append(e2.as_str());
            out.append("\"}");
        },
        (Some(role), None) => {
            out.append("{\"role\":\"");
            let e = json_escape(role.as_str());
            out.append(e.as_str());
            out.append("\"}");
        },
        (None, Some(content)) => {
            out.append("{\"content\":\"");
            let e = json_escape(content.as_str());
            out.append(e.as_str());
            out.append("\"}");
        },
        (None, None) => {
            out.append("{}");
        },
    }
    out.append(",\"finish_reason\":");
    match &c.choices[0].finish_reason {
        Some(f) => {
            out.append("\"");
            let e = json_escape(f.as_str());
            out.append(e.as_str());
            out.append("\"");
        },
        None => {
            out.append("null");
        },
    }
    out.append("}]}");
    out
}

/// Reduce a backend outcome to the content-chunk text.
pub fn stream_text(outcome: &Result<String, String>) -> (r: String)
    ensures
        r@ == spec_stream_text(*outcome),
{
    match outcome {
        Ok(t) => t.clone(),
        Err(e) => {
            let mut m = String::from_str("[error: ");
            m.append(e.as_str());
            m.append("]");
            m
        },
    }
}

/// The four payloads of one chat stream, under the given id and creation
/// stamp, in emission order: role chunk, content chunk, done chunk,
/// sentinel. A backend failure is embedded in the content chunk and the
/// stream still completes cleanly.
pub fn render_stream_payloads(
    id: &str,
    created: u64,
    model: &str,
    outcome: &Result<String, String>,
) -> (frames: Vec<String>)
    ensures
        frames@.len() == 4,
        frames@[0]@ == role_chunk_json(id@, created as nat, model@),
        frames@[1]@ == content_chunk_json(id@, created as nat, model@, spec_stream_text(*outcome)),
        frames@[2]@ == done_chunk_json(id@, created as nat, model@),
        frames@[3]@ == "[DONE]"@,
{
    let mut frames: Vec<String> = Vec::new();

    let role_chunk = build_chunk(
        id,
        created,
        model,
        Delta { role: Some(String::from_str("assistant")), content: None },
        None,
    );
    frames.push(render_chunk_json(&role_chunk));

    let text = stream_text(outcome);
    let content_chunk = build_chunk(
        id,
        created,
        model,
        Delta { role: None, content: Some(text) },
        None,
    );
    frames.push(render_chunk_json(&content_chunk));

    let done_chunk = build_chunk(
        id,
        created,
        model,
        Delta { role: None, content: None },
        Some(String::from_str("stop")),
    );
    frames.push(render_chunk_json(&done_chunk));

    frames.push(String::from_str("[DONE]"));
    frames
}

/// The four payloads of one chat stream under a fresh request id and the
/// current time: all three chunks share the one id and stamp, and the
/// sentinel closes the stream.
pub fn stream_chat_payloads(model: &str, outcome: &Result<String, String>) -> (frames: Vec<String>)
    ensures
        frames@.len() == 4,
        frames@[3]@ == "[DONE]"@,
        exists|id: Seq<char>, created: nat|
            #![auto]
            id.len() == 36 && frames@[0]@ == role_chunk_json(id, created, model@) && frames@[1]@
                == content_chunk_json(id, created, model@, spec_stream_text(*outcome))
                && frames@[2]@ == done_chunk_json(id, created, model@),
{
    let id = crate::sys::fresh_request_id();
    let created = crate::sys::unix_now();
    let frames = render_stream_payloads(id.as_str(), created, model, outcome);
    proof {
        assert(id@.len() == 36 && frames@[0]@ == role_chunk_json(id@, created as nat, model@)
            && frames@[1]@ == content_chunk_json(
            id@,
            created as nat,
            model@,
            spec_stream_text(*outcome),
        ) && frames@[2]@ == done_chunk_json(id@, created as nat, model@));
    }
    frames
}

} // verus!
