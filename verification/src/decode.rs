//! Reading typed values out of JSON documents.
//!
//! A structure is read from a JSON object: a member that the structure
//! requires must be present with the right kind of value, an optional member
//! may be absent or `null`, and members that the structure does not know are
//! ignored. Any other document is rejected.

use vstd::prelude::*;
use crate::json::{Json, JsonValue};
use crate::text::text_is;
use crate::types::{
    opt_text, ChatCompletionChunk, ChatCompletionChunkView, ChoiceChunk, ChoiceChunkView,
    FunctionCall, FunctionCallView, ImageUrl, ImageUrlView, MessageContent, MessageContentView,
    MessageDelta, MessageDeltaView, MessagePart, MessagePartView, Role, ToolCall, ToolCallView,
};

verus! {

/// Whether `found` is the executable form of the specified outcome `wanted`.
pub open spec fn agrees<T: View>(found: Option<T>, wanted: Option<T::V>) -> bool {
    match found {
        Some(x) => wanted == Some(x@),
        None => wanted is None,
    }
}

/// The string member `key`, which must be present.
pub open spec fn required_text(v: JsonValue, key: Seq<char>) -> Option<Seq<char>> {
    match v.member(key) {
        Some(m) => m.text(),
        None => None,
    }
}

/// An optional member read with `read`: absent and `null` both give
/// `Some(None)`, and a member that `read` rejects gives `None`.
pub open spec fn optional<T>(member: Option<JsonValue>, read: spec_fn(JsonValue) -> Option<T>) -> Option<
    Option<T>,
> {
    match member {
        None => Some(None),
        Some(JsonValue::Null) => Some(None),
        Some(m) => match read(m) {
            Some(x) => Some(Some(x)),
            None => None,
        },
    }
}

/// The optional string member `key`.
pub open spec fn optional_text(v: JsonValue, key: Seq<char>) -> Option<Option<Seq<char>>> {
    optional(v.member(key), |m: JsonValue| m.text())
}

/// Every element of `items` read with `read`, or `None` if one is rejected.
pub open spec fn read_all<T>(items: Seq<JsonValue>, read: spec_fn(JsonValue) -> Option<T>) -> Option<
    Seq<T>,
> {
    if forall|i: int| 0 <= i < items.len() ==> (#[trigger] read(items[i])) is Some {
        Some(Seq::new(items.len(), |i: int| read(items[i])->0))
    } else {
        None
    }
}

/// The role that a JSON string names.
pub open spec fn role_of(v: JsonValue) -> Option<Role> {
    match v.text() {
        Some(t) => if t == "system"@ {
            Some(Role::System)
        } else if t == "user"@ {
            Some(Role::User)
        } else if t == "assistant"@ {
            Some(Role::Assistant)
        } else if t == "tool"@ {
            Some(Role::Tool)
        } else {
            None
        },
        None => None,
    }
}

/// An image reference: an object with the string `url` and the optional
/// string `detail`.
pub open spec fn image_url_of(v: JsonValue) -> Option<ImageUrlView> {
    if !(v is Object) {
        None
    } else {
        match (required_text(v, "url"@), optional_text(v, "detail"@)) {
            (Some(url), Some(detail)) => Some(ImageUrlView { url, detail }),
            _ => None,
        }
    }
}

/// A message part: an object whose string `type` is `text` or `image_url`
/// and which holds the member of that name.
pub open spec fn message_part_of(v: JsonValue) -> Option<MessagePartView> {
    if !(v is Object) {
        None
    } else {
        match required_text(v, "type"@) {
            Some(tag) => if tag == "text"@ {
                match required_text(v, "text"@) {
                    Some(text) => Some(MessagePartView::Text { text }),
                    None => None,
                }
            } else if tag == "image_url"@ {
                match v.member("image_url"@) {
                    Some(m) => match image_url_of(m) {
                        Some(image_url) => Some(MessagePartView::ImageUrl { image_url }),
                        None => None,
                    },
                    None => None,
                }
            } else {
                None
            },
            None => None,
        }
    }
}

/// Message content: a string is text, an object is an image reference, an
/// array is a list of parts.
pub open spec fn content_of(v: JsonValue) -> Option<MessageContentView> {
    match v {
        JsonValue::String(t) => Some(MessageContentView::Text(t)),
        JsonValue::Object(_) => match image_url_of(v) {
            Some(image) => Some(MessageContentView::ImageUrl(image)),
            None => None,
        },
        JsonValue::Array(items) => match read_all(items, |m: JsonValue| message_part_of(m)) {
            Some(parts) => Some(MessageContentView::Parts(parts)),
            None => None,
        },
        _ => None,
    }
}

/// A function call: an object with the strings `name` and `arguments`.
pub open spec fn function_call_of(v: JsonValue) -> Option<FunctionCallView> {
    if !(v is Object) {
        None
    } else {
        match (required_text(v, "name"@), required_text(v, "arguments"@)) {
            (Some(name), Some(arguments)) => Some(FunctionCallView { name, arguments }),
            _ => None,
        }
    }
}

/// A tool call: an object with the strings `id` and `type` and the function
/// call `function`.
pub open spec fn tool_call_of(v: JsonValue) -> Option<ToolCallView> {
    if !(v is Object) {
        None
    } else {
        match (required_text(v, "id"@), required_text(v, "type"@), v.member("function"@)) {
            (Some(id), Some(type_), Some(f)) => match function_call_of(f) {
                Some(function) => Some(ToolCallView { id, type_, function }),
                None => None,
            },
            _ => None,
        }
    }
}

/// A list of tool calls: an array of them.
pub open spec fn tool_calls_of(v: JsonValue) -> Option<Seq<ToolCallView>> {
    match v.elements() {
        Some(items) => read_all(items, |m: JsonValue| tool_call_of(m)),
        None => None,
    }
}

/// A message delta: an object with the optional members `role`, `content`
/// and `tool_calls`.
pub open spec fn delta_of(v: JsonValue) -> Option<MessageDeltaView> {
    if !(v is Object) {
        None
    } else {
        match (
            optional(v.member("role"@), |m: JsonValue| role_of(m)),
            optional(v.member("content"@), |m: JsonValue| content_of(m)),
            optional(v.member("tool_calls"@), |m: JsonValue| tool_calls_of(m)),
        ) {
            (Some(role), Some(content), Some(tool_calls)) => Some(
                MessageDeltaView { role, content, tool_calls },
            ),
            _ => None,
        }
    }
}

/// The integer member `key` as 32 bits, which must be present.
pub open spec fn required_int32(v: JsonValue, key: Seq<char>) -> Option<i32> {
    match v.member(key) {
        Some(m) => m.int32(),
        None => None,
    }
}

/// The integer member `key` as 64 bits, which must be present.
pub open spec fn required_int64(v: JsonValue, key: Seq<char>) -> Option<i64> {
    match v.member(key) {
        Some(m) => m.int64(),
        None => None,
    }
}

/// A streamed choice: an object with the integer `index`, the delta `delta`
/// and the optional string `finish_reason`.
pub open spec fn choice_of(v: JsonValue) -> Option<ChoiceChunkView> {
    if !(v is Object) {
        None
    } else {
        match (required_int32(v, "index"@), v.member("delta"@), optional_text(v, "finish_reason"@)) {
            (Some(index), Some(d), Some(finish_reason)) => match delta_of(d) {
                Some(delta) => Some(ChoiceChunkView { index, delta, finish_reason }),
                None => None,
            },
            _ => None,
        }
    }
}

/// A list of streamed choices: an array of them.
pub open spec fn choices_of(v: JsonValue) -> Option<Seq<ChoiceChunkView>> {
    match v.elements() {
        Some(items) => read_all(items, |m: JsonValue| choice_of(m)),
        None => None,
    }
}

/// A streamed chunk: an object with the strings `id`, `object` and `model`,
/// the integer `created`, the array `choices` and the optional string
/// `system_fingerprint`.
pub open spec fn chunk_of(v: JsonValue) -> Option<ChatCompletionChunkView> {
    if !(v is Object) {
        None
    } else {
        match (
            required_text(v, "id"@),
            required_text(v, "object"@),
            required_int64(v, "created"@),
            required_text(v, "model"@),
            v.member("choices"@),
            optional_text(v, "system_fingerprint"@),
        ) {
            (Some(id), Some(object), Some(created), Some(model), Some(c), Some(system_fingerprint)) => {
                match choices_of(c) {
                    Some(choices) => Some(
                        ChatCompletionChunkView {
                            id,
                            object,
                            created,
                            model,
                            choices,
                            system_fingerprint,
                        },
                    ),
                    None => None,
                }
            },
            _ => None,
        }
    }
}

/// Reads the string member `key`, which must be present.
pub fn required_string(v: &Json, key: &str) -> (r: Option<String>)
    ensures
        opt_text(r) == required_text(v@, key@),
{
    match v.get(key) {
        Some(m) => match m.as_str() {
            Some(s) => Some(s.clone()),
            None => None,
        },
        None => None,
    }
}

/// Reads the optional string member `key`.
pub fn optional_string(v: &Json, key: &str) -> (r: Option<Option<String>>)
    ensures
        match r {
            Some(s) => optional_text(v@, key@) == Some(opt_text(s)),
            None => optional_text(v@, key@) is None,
        },
{
    match v.get(key) {
        None => Some(None),
        Some(m) => if m.is_null() {
            Some(None)
        } else {
            match m.as_str() {
                Some(s) => Some(Some(s.clone())),
                None => None,
            }
        },
    }
}

/// Reads a role.
pub fn decode_role(v: &Json) -> (r: Option<Role>)
    ensures
        r == role_of(v@),
{
    match v.as_str() {
        Some(t) => if text_is(t, "system") {
            Some(Role::System)
        } else if text_is(t, "user") {
            Some(Role::User)
        } else if text_is(t, "assistant") {
            Some(Role::Assistant)
        } else if text_is(t, "tool") {
            Some(Role::Tool)
        } else {
            None
        },
        None => None,
    }
}

/// Reads an image reference.
pub fn decode_image_url(v: &Json) -> (r: Option<ImageUrl>)
    ensures
        agrees(r, image_url_of(v@)),
{
    if !v.is_object() {
        return None;
    }
    let url = match required_string(v, "url") {
        Some(s) => s,
        None => { return None; },
    };
    let detail = match optional_string(v, "detail") {
        Some(s) => s,
        None => { return None; },
    };
    Some(ImageUrl { url, detail })
}

/// Reads a message part.
pub fn decode_message_part(v: &Json) -> (r: Option<MessagePart>)
    ensures
        agrees(r, message_part_of(v@)),
{
    if !v.is_object() {
        return None;
    }
    let tag = match required_string(v, "type") {
        Some(s) => s,
        None => { return None; },
    };
    if text_is(&tag, "text") {
        match required_string(v, "text") {
            Some(text) => Some(MessagePart::Text { text }),
            None => None,
        }
    } else if text_is(&tag, "image_url") {
        match v.get("image_url") {
            Some(m) => match decode_image_url(m) {
                Some(image_url) => Some(MessagePart::ImageUrl { image_url }),
                None => None,
            },
            None => None,
        }
    } else {
        None
    }
}

/// Reads a list of message parts from the elements of an array.
pub fn decode_message_parts(items: &Vec<Json>) -> (r: Option<Vec<MessagePart>>)
    ensures
        match r {
            Some(parts) => read_all(
                Seq::new(items@.len(), |i: int| items@[i]@),
                |m: JsonValue| message_part_of(m),
            ) == Some(parts@.map_values(|p: MessagePart| p@)),
            None => read_all(
                Seq::new(items@.len(), |i: int| items@[i]@),
                |m: JsonValue| message_part_of(m),
            ) is None,
        },
{
    let ghost values = Seq::new(items@.len(), |i: int| items@[i]@);
    let ghost read = |m: JsonValue| message_part_of(m);
    let mut parts: Vec<MessagePart> = Vec::new();
    let mut i: usize = 0;
    while i < items.len()
        invariant
            i <= items.len(),
            parts@.len() == i,
            values == Seq::new(items@.len(), |i: int| items@[i]@),
            read == |m: JsonValue| message_part_of(m),
            forall|j: int| 0 <= j < i ==> (#[trigger] read(values[j])) == Some(parts@[j]@),
        decreases items.len() - i,
    {
        match decode_message_part(&items[i]) {
            Some(part) => {
                parts.push(part);
            },
            None => {
                assert(read(values[i as int]) is None);
                return None;
            },
        }
        i += 1;
    }
    assert(read_all(values, read)->0 =~= parts@.map_values(|p: MessagePart| p@));
    Some(parts)
}

/// Reads message content.
pub fn decode_content(v: &Json) -> (r: Option<MessageContent>)
    ensures
        agrees(r, content_of(v@)),
{
    match v {
        Json::String(t) => Some(MessageContent::Text(t.clone())),
        Json::Object(_) => match decode_image_url(v) {
            Some(image) => Some(MessageContent::ImageUrl(image)),
            None => None,
        },
        Json::Array(items) => {
            assert(v@->Array_0 =~= Seq::new(items@.len(), |i: int| items@[i]@));
            match decode_message_parts(items) {
                Some(parts) => Some(MessageContent::Parts(parts)),
                None => None,
            }
        },
        _ => None,
    }
}

/// Reads a function call.
pub fn decode_function_call(v: &Json) -> (r: Option<FunctionCall>)
    ensures
        agrees(r, function_call_of(v@)),
{
    if !v.is_object() {
        return None;
    }
    let name = match required_string(v, "name") {
        Some(s) => s,
        None => { return None; },
    };
    let arguments = match required_string(v, "arguments") {
        Some(s) => s,
        None => { return None; },
    };
    Some(FunctionCall { name, arguments })
}

/// Reads a tool call.
pub fn decode_tool_call(v: &Json) -> (r: Option<ToolCall>)
    ensures
        agrees(r, tool_call_of(v@)),
{
    if !v.is_object() {
        return None;
    }
    let id = match required_string(v, "id") {
        Some(s) => s,
        None => { return None; },
    };
    let type_ = match required_string(v, "type") {
        Some(s) => s,
        None => { return None; },
    };
    let function = match v.get("function") {
        Some(f) => match decode_function_call(f) {
            Some(call) => call,
            None => { return None; },
        },
        None => { return None; },
    };
    Some(ToolCall { id, type_, function })
}

/// Reads a list of tool calls.
pub fn decode_tool_calls(v: &Json) -> (r: Option<Vec<ToolCall>>)
    ensures
        match r {
            Some(calls) => tool_calls_of(v@) == Some(calls@.map_values(|c: ToolCall| c@)),
            None => tool_calls_of(v@) is None,
        },
{
    let items = match v.as_array() {
        Some(items) => items,
        None => { return None; },
    };
    let ghost values = Seq::new(items@.len(), |i: int| items@[i]@);
    let ghost read = |m: JsonValue| tool_call_of(m);
    let mut calls: Vec<ToolCall> = Vec::new();
    let mut i: usize = 0;
    while i < items.len()
        invariant
            i <= items.len(),
            calls@.len() == i,
            values == Seq::new(items@.len(), |i: int| items@[i]@),
            read == |m: JsonValue| tool_call_of(m),
            v@.elements() == Some(values),
            forall|j: int| 0 <= j < i ==> (#[trigger] read(values[j])) == Some(calls@[j]@),
        decreases items.len() - i,
    {
        match decode_tool_call(&items[i]) {
            Some(call) => {
                calls.push(call);
            },
            None => {
                assert(read(values[i as int]) is None);
                return None;
            },
        }
        i += 1;
    }
    assert(read_all(values, read)->0 =~= calls@.map_values(|c: ToolCall| c@));
    Some(calls)
}

/// Reads a message delta.
pub fn decode_delta(v: &Json) -> (r: Option<MessageDelta>)
    ensures
        agrees(r, delta_of(v@)),
{
    if !v.is_object() {
        return None;
    }
    let role = match v.get("role") {
        None => None,
        Some(m) => if m.is_null() {
            None
        } else {
            match decode_role(m) {
                Some(role) => Some(role),
                None => { return None; },
            }
        },
    };
    let content = match v.get("content") {
        None => None,
        Some(m) => if m.is_null() {
            None
        } else {
            match decode_content(m) {
                Some(content) => Some(content),
                None => { return None; },
            }
        },
    };
    let tool_calls = match v.get("tool_calls") {
        None => None,
        Some(m) => if m.is_null() {
            None
        } else {
            match decode_tool_calls(m) {
                Some(calls) => Some(calls),
                None => { return None; },
            }
        },
    };
    Some(MessageDelta { role, content, tool_calls })
}

/// Reads a streamed choice.
pub fn decode_choice(v: &Json) -> (r: Option<ChoiceChunk>)
    ensures
        agrees(r, choice_of(v@)),
{
    if !v.is_object() {
        return None;
    }
    let index = match v.get("index") {
        Some(m) => match m.as_i32() {
            Some(n) => n,
            None => { return None; },
        },
        None => { return None; },
    };
    let delta = match v.get("delta") {
        Some(m) => match decode_delta(m) {
            Some(delta) => delta,
            None => { return None; },
        },
        None => { return None; },
    };
    let finish_reason = match optional_string(v, "finish_reason") {
        Some(s) => s,
        None => { return None; },
    };
    Some(ChoiceChunk { index, delta, finish_reason })
}

/// Reads a list of streamed choices.
pub fn decode_choices(v: &Json) -> (r: Option<Vec<ChoiceChunk>>)
    ensures
        match r {
            Some(choices) => choices_of(v@) == Some(choices@.map_values(|c: ChoiceChunk| c@)),
            None => choices_of(v@) is None,
        },
{
    let items = match v.as_array() {
        Some(items) => items,
        None => { return None; },
    };
    let ghost values = Seq::new(items@.len(), |i: int| items@[i]@);
    let ghost read = |m: JsonValue| choice_of(m);
    let mut choices: Vec<ChoiceChunk> = Vec::new();
    let mut i: usize = 0;
    while i < items.len()
        invariant
            i <= items.len(),
            choices@.len() == i,
            values == Seq::new(items@.len(), |i: int| items@[i]@),
            read == |m: JsonValue| choice_of(m),
            v@.elements() == Some(values),
            forall|j: int| 0 <= j < i ==> (#[trigger] read(values[j])) == Some(choices@[j]@),
        decreases items.len() - i,
    {
        match decode_choice(&items[i]) {
            Some(choice) => {
                choices.push(choice);
            },
            None => {
                assert(read(values[i as int]) is None);
                return None;
            },
        }
        i += 1;
    }
    assert(read_all(values, read)->0 =~= choices@.map_values(|c: ChoiceChunk| c@));
    Some(choices)
}

/// Reads a streamed chunk.
pub fn decode_chunk(v: &Json) -> (r: Option<ChatCompletionChunk>)
    ensures
        agrees(r, chunk_of(v@)),
{
    if !v.is_object() {
        return None;
    }
    let id = match required_string(v, "id") {
        Some(s) => s,
        None => { return None; },
    };
    let object = match required_string(v, "object") {
        Some(s) => s,
        None => { return None; },
    };
    let created = match v.get("created") {
        Some(m) => match m.as_i64() {
            Some(n) => n,
            None => { return None; },
        },
        None => { return None; },
    };
    let model = match required_string(v, "model") {
        Some(s) => s,
        None => { return None; },
    };
    let choices = match v.get("choices") {
        Some(m) => match decode_choices(m) {
            Some(choices) => choices,
            None => { return None; },
        },
        None => { return None; },
    };
    let system_fingerprint = match optional_string(v, "system_fingerprint") {
        Some(s) => s,
        None => { return None; },
    };
    Some(ChatCompletionChunk { id, object, created, model, choices, system_fingerprint })
}

} // verus!
