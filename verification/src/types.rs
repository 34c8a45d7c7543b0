//! The data carried by requests and responses.

use vstd::prelude::*;

verus! {

/// The text of an optional string.
pub open spec fn opt_text(s: Option<String>) -> Option<Seq<char>> {
    match s {
        Some(t) => Some(t@),
        None => None,
    }
}

/// Who wrote a message.
#[derive(Debug, Clone, Copy, PartialEq, Eq, Structural)]
pub enum Role {
    System,
    User,
    Assistant,
    Tool,
}

/// A model of the service: one of those known by name, or any other.
#[derive(Debug, Clone, PartialEq)]
pub enum KnownModel {
    Llama3_1_8bInstant,
    Llama3_1_70bVersatile,
    Llama3_1_405bReasoning,
    Mixtral8x7b32768,
    Gemma2_9bIt,
    Qwen2_5_72bInstruct,
    Other(String),
}

/// The name by which the service knows `model`.
pub open spec fn model_name(model: KnownModel) -> Seq<char> {
    match model {
        KnownModel::Llama3_1_8bInstant => "llama-3.1-8b-instant"@,
        KnownModel::Llama3_1_70bVersatile => "llama-3.1-70b-versatile"@,
        KnownModel::Llama3_1_405bReasoning => "llama-3.1-405b-reasoning"@,
        KnownModel::Mixtral8x7b32768 => "mixtral-8x7b-32768"@,
        KnownModel::Gemma2_9bIt => "gemma2-9b-it"@,
        KnownModel::Qwen2_5_72bInstruct => "qwen2.5-72b-instruct"@,
        KnownModel::Other(name) => name@,
    }
}

impl KnownModel {
    /// The name by which the service knows the model.
    pub fn to_string(&self) -> (r: String)
        ensures
            r@ == model_name(*self),
    {
        match self {
            KnownModel::Llama3_1_8bInstant => "llama-3.1-8b-instant".to_owned(),
            KnownModel::Llama3_1_70bVersatile => "llama-3.1-70b-versatile".to_owned(),
            KnownModel::Llama3_1_405bReasoning => "llama-3.1-405b-reasoning".to_owned(),
            KnownModel::Mixtral8x7b32768 => "mixtral-8x7b-32768".to_owned(),
            KnownModel::Gemma2_9bIt => "gemma2-9b-it".to_owned(),
            KnownModel::Qwen2_5_72bInstruct => "qwen2.5-72b-instruct".to_owned(),
            KnownModel::Other(name) => name.clone(),
        }
    }

    /// The name by which the service knows the model, for the model itself.
    pub fn into_string(self) -> (r: String)
        ensures
            r@ == model_name(self),
    {
        match self {
            KnownModel::Other(name) => name,
            known => known.to_string(),
        }
    }
}

/// An image reference inside a message.
#[derive(Debug, Clone, PartialEq, Eq)]
pub struct ImageUrl {
    pub url: String,
    pub detail: Option<String>,
}

pub ghost struct ImageUrlView {
    pub url: Seq<char>,
    pub detail: Option<Seq<char>>,
}

impl View for ImageUrl {
    type V = ImageUrlView;

    open spec fn view(&self) -> ImageUrlView {
        ImageUrlView { url: self.url@, detail: opt_text(self.detail) }
    }
}

impl ImageUrl {
    /// A reference to the image at `url`, with no detail setting.
    pub fn new(url: &str) -> (r: Self)
        ensures
            r@ == (ImageUrlView { url: url@, detail: None }),
    {
        ImageUrl { url: url.to_owned(), detail: None }
    }
}

/// One part of a multi-part message body.
#[derive(Debug, Clone, PartialEq, Eq)]
pub enum MessagePart {
    Text { text: String },
    ImageUrl { image_url: ImageUrl },
}

pub ghost enum MessagePartView {
    Text { text: Seq<char> },
    ImageUrl { image_url: ImageUrlView },
}

impl View for MessagePart {
    type V = MessagePartView;

    open spec fn view(&self) -> MessagePartView {
        match self {
            MessagePart::Text { text } => MessagePartView::Text { text: text@ },
            MessagePart::ImageUrl { image_url } => MessagePartView::ImageUrl {
                image_url: image_url@,
            },
        }
    }
}

/// The body of a message.
#[derive(Debug, Clone, PartialEq)]
pub enum MessageContent {
    Text(String),
    ImageUrl(ImageUrl),
    Parts(Vec<MessagePart>),
}

pub ghost enum MessageContentView {
    Text(Seq<char>),
    ImageUrl(ImageUrlView),
    Parts(Seq<MessagePartView>),
}

impl View for MessageContent {
    type V = MessageContentView;

    open spec fn view(&self) -> MessageContentView {
        match self {
            MessageContent::Text(text) => MessageContentView::Text(text@),
            MessageContent::ImageUrl(image) => MessageContentView::ImageUrl(image@),
            MessageContent::Parts(parts) => MessageContentView::Parts(
                parts@.map_values(|p: MessagePart| p@),
            ),
        }
    }
}

impl MessageContent {
    /// Content that is text.
    pub fn text(content: &str) -> (r: Self)
        ensures
            r@ == MessageContentView::Text(content@),
    {
        MessageContent::Text(content.to_owned())
    }

    /// Content that is the image at `url`.
    pub fn image(url: &str) -> (r: Self)
        ensures
            r@ == MessageContentView::ImageUrl(ImageUrlView { url: url@, detail: None }),
    {
        MessageContent::ImageUrl(ImageUrl::new(url))
    }

    /// Content that is a list of parts.
    pub fn parts(parts: Vec<MessagePart>) -> (r: Self)
        ensures
            r == MessageContent::Parts(parts),
    {
        MessageContent::Parts(parts)
    }
}

/// The function a tool call names, with its arguments as JSON text.
#[derive(Debug, Clone)]
pub struct FunctionCall {
    pub name: String,
    pub arguments: String,
}

pub ghost struct FunctionCallView {
    pub name: Seq<char>,
    pub arguments: Seq<char>,
}

impl View for FunctionCall {
    type V = FunctionCallView;

    open spec fn view(&self) -> FunctionCallView {
        FunctionCallView { name: self.name@, arguments: self.arguments@ }
    }
}

/// A call of a tool that the model asks for.
#[derive(Debug, Clone)]
pub struct ToolCall {
    pub id: String,
    pub type_: String,
    pub function: FunctionCall,
}

pub ghost struct ToolCallView {
    pub id: Seq<char>,
    pub type_: Seq<char>,
    pub function: FunctionCallView,
}

impl View for ToolCall {
    type V = ToolCallView;

    open spec fn view(&self) -> ToolCallView {
        ToolCallView { id: self.id@, type_: self.type_@, function: self.function@ }
    }
}

/// The views of an optional list of tool calls.
pub open spec fn opt_tool_calls(calls: Option<Vec<ToolCall>>) -> Option<Seq<ToolCallView>> {
    match calls {
        Some(list) => Some(list@.map_values(|c: ToolCall| c@)),
        None => None,
    }
}

/// The view of optional content.
pub open spec fn opt_content(content: Option<MessageContent>) -> Option<MessageContentView> {
    match content {
        Some(c) => Some(c@),
        None => None,
    }
}

/// A message of a conversation.
#[derive(Debug, Clone)]
pub struct ChatMessage {
    pub role: Role,
    pub content: MessageContent,
    pub tool_calls: Option<Vec<ToolCall>>,
    pub tool_call_id: Option<String>,
}

pub ghost struct ChatMessageView {
    pub role: Role,
    pub content: MessageContentView,
    pub tool_calls: Option<Seq<ToolCallView>>,
    pub tool_call_id: Option<Seq<char>>,
}

impl View for ChatMessage {
    type V = ChatMessageView;

    open spec fn view(&self) -> ChatMessageView {
        ChatMessageView {
            role: self.role,
            content: self.content@,
            tool_calls: opt_tool_calls(self.tool_calls),
            tool_call_id: opt_text(self.tool_call_id),
        }
    }
}

impl ChatMessage {
    /// A message of plain text.
    pub fn new_text(role: Role, content: &str) -> (r: Self)
        ensures
            r@ == (ChatMessageView {
                role,
                content: MessageContentView::Text(content@),
                tool_calls: None,
                tool_call_id: None,
            }),
    {
        ChatMessage {
            role,
            content: MessageContent::Text(content.to_owned()),
            tool_calls: None,
            tool_call_id: None,
        }
    }

    /// A message made of parts.
    pub fn new_multimodal(role: Role, parts: Vec<MessagePart>) -> (r: Self)
        ensures
            r.role == role,
            r.content == MessageContent::Parts(parts),
            r.tool_calls is None,
            r.tool_call_id is None,
    {
        ChatMessage { role, content: MessageContent::Parts(parts), tool_calls: None, tool_call_id: None }
    }

    /// The same message with these tool calls.
    pub fn with_tool_calls(self, tool_calls: Vec<ToolCall>) -> (r: Self)
        ensures
            r.role == self.role,
            r.content == self.content,
            r.tool_calls == Some(tool_calls),
            r.tool_call_id == self.tool_call_id,
    {
        ChatMessage {
            role: self.role,
            content: self.content,
            tool_calls: Some(tool_calls),
            tool_call_id: self.tool_call_id,
        }
    }

    /// The answer of a tool to the call `tool_call_id`.
    pub fn tool_response(tool_call_id: String, content: &str) -> (r: Self)
        ensures
            r@ == (ChatMessageView {
                role: Role::Tool,
                content: MessageContentView::Text(content@),
                tool_calls: None,
                tool_call_id: Some(tool_call_id@),
            }),
    {
        ChatMessage {
            role: Role::Tool,
            content: MessageContent::Text(content.to_owned()),
            tool_calls: None,
            tool_call_id: Some(tool_call_id),
        }
    }
}

/// What one streamed record adds to a message.
#[derive(Debug, Clone)]
pub struct MessageDelta {
    pub role: Option<Role>,
    pub content: Option<MessageContent>,
    pub tool_calls: Option<Vec<ToolCall>>,
}

pub ghost struct MessageDeltaView {
    pub role: Option<Role>,
    pub content: Option<MessageContentView>,
    pub tool_calls: Option<Seq<ToolCallView>>,
}

impl View for MessageDelta {
    type V = MessageDeltaView;

    open spec fn view(&self) -> MessageDeltaView {
        MessageDeltaView {
            role: self.role,
            content: opt_content(self.content),
            tool_calls: opt_tool_calls(self.tool_calls),
        }
    }
}

/// One choice inside a streamed chunk.
#[derive(Debug, Clone)]
pub struct ChoiceChunk {
    pub index: i32,
    pub delta: MessageDelta,
    pub finish_reason: Option<String>,
}

pub ghost struct ChoiceChunkView {
    pub index: i32,
    pub delta: MessageDeltaView,
    pub finish_reason: Option<Seq<char>>,
}

impl View for ChoiceChunk {
    type V = ChoiceChunkView;

    open spec fn view(&self) -> ChoiceChunkView {
        ChoiceChunkView {
            index: self.index,
            delta: self.delta@,
            finish_reason: opt_text(self.finish_reason),
        }
    }
}

/// One decoded record of a streamed completion.
#[derive(Debug, Clone)]
pub struct ChatCompletionChunk {
    pub id: String,
    pub object: String,
    pub created: i64,
    pub model: String,
    pub choices: Vec<ChoiceChunk>,
    pub system_fingerprint: Option<String>,
}

pub ghost struct ChatCompletionChunkView {
    pub id: Seq<char>,
    pub object: Seq<char>,
    pub created: i64,
    pub model: Seq<char>,
    pub choices: Seq<ChoiceChunkView>,
    pub system_fingerprint: Option<Seq<char>>,
}

impl View for ChatCompletionChunk {
    type V = ChatCompletionChunkView;

    open spec fn view(&self) -> ChatCompletionChunkView {
        ChatCompletionChunkView {
            id: self.id@,
            object: self.object@,
            created: self.created,
            model: self.model@,
            choices: self.choices@.map_values(|c: ChoiceChunk| c@),
            system_fingerprint: opt_text(self.system_fingerprint),
        }
    }
}

/// A file held by the service.
#[derive(Debug, Clone)]
pub struct File {
    pub id: String,
    pub object: String,
    pub bytes: u64,
    pub created_at: u64,
    pub filename: String,
    pub purpose: String,
}

/// A list of files.
#[derive(Debug, Clone)]
pub struct FileList {
    pub object: String,
    pub data: Vec<File>,
}

/// The answer to the deletion of a file.
#[derive(Debug, Clone)]
pub struct FileDeletion {
    pub id: String,
    pub object: String,
    pub deleted: bool,
}

/// How many requests of a batch are done.
#[derive(Debug, Clone, Copy, PartialEq, Eq, Structural)]
pub struct RequestCounts {
    pub total: u32,
    pub completed: u32,
    pub failed: u32,
}

/// The tier of service that a request asks for.
#[derive(Debug, Clone, Copy, PartialEq, Eq, Structural)]
pub enum ServiceTier {
    Auto,
    OnDemand,
    Flex,
    Performance,
}

/// What ends a completion: one sequence, or any of several.
#[derive(Debug, Clone)]
pub enum StopSequence {
    Single(String),
    Multiple(Vec<String>),
}

/// Options of a streamed response.
#[derive(Debug, Clone, Copy, PartialEq, Eq, Structural)]
pub struct StreamOptions {
    pub include_usage: Option<bool>,
}

/// The domains that a web search keeps to, or keeps away from.
#[derive(Debug, Clone)]
pub struct SearchSettings {
    pub include_domains: Option<Vec<String>>,
    pub exclude_domains: Option<Vec<String>>,
}

} // verus!
