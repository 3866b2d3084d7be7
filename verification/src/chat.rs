//! Chat conversation models.

use vstd::prelude::*;

verus! {

/// Role of a message in a chat conversation.
#[derive(Debug, Clone, PartialEq, Eq, Structural)]
pub enum MessageRole {
    /// System message that provides context.
    System,
    /// User message.
    User,
    /// Assistant response.
    Assistant,
    /// Tool or function call result.
    Tool,
}

/// The wire name of a role.
pub open spec fn role_name_spec(r: MessageRole) -> Seq<char> {
    match r {
        MessageRole::System => "system"@,
        MessageRole::User => "user"@,
        MessageRole::Assistant => "assistant"@,
        MessageRole::Tool => "tool"@,
    }
}

impl MessageRole {
    /// Renders the role under its wire name.
    pub fn to_string(&self) -> (r: String)
        ensures
            r@ == role_name_spec(*self),
    {
        match self {
            MessageRole::System => String::from_str("system"),
            MessageRole::User => String::from_str("user"),
            MessageRole::Assistant => String::from_str("assistant"),
            MessageRole::Tool => String::from_str("tool"),
        }
    }
}

/// Details of a function call requested by the model. The arguments are
/// carried as their JSON text.
#[derive(Debug, Clone, PartialEq, Eq)]
pub struct FunctionCall {
    /// Function name.
    pub name: String,
    /// Function arguments, as JSON text.
    pub arguments: String,
}

/// Ghost-level model of a `FunctionCall`.
pub struct FunctionCallV {
    pub name: Seq<char>,
    pub arguments: Seq<char>,
}

impl View for FunctionCall {
    type V = FunctionCallV;

    open spec fn view(&self) -> FunctionCallV {
        FunctionCallV { name: self.name@, arguments: self.arguments@ }
    }
}

/// A tool call made by the model.
#[derive(Debug, Clone, PartialEq, Eq)]
pub struct ToolCall {
    /// Tool call identity, where the model provides one.
    pub id: Option<String>,
    /// Tool kind, where the model provides one.
    pub tool_type: Option<String>,
    /// The requested function call.
    pub function: FunctionCall,
}

/// Ghost-level model of a `ToolCall`.
pub struct ToolCallV {
    pub id: Option<Seq<char>>,
    pub tool_type: Option<Seq<char>>,
    pub function: FunctionCallV,
}

impl View for ToolCall {
    type V = ToolCallV;

    open spec fn view(&self) -> ToolCallV {
        ToolCallV {
            id: match self.id {
                Some(s) => Some(s@),
                None => None,
            },
            tool_type: match self.tool_type {
                Some(s) => Some(s@),
                None => None,
            },
            function: self.function@,
        }
    }
}

impl DeepView for ToolCall {
    type V = ToolCallV;

    open spec fn deep_view(&self) -> ToolCallV {
        self@
    }
}

/// A message in a chat conversation.
#[derive(Debug, Clone, PartialEq, Eq)]
pub struct ChatMessage {
    /// Role of the message sender.
    pub role: MessageRole,
    /// Content of the message.
    pub content: String,
    /// Images attached to the message.
    pub images: Option<Vec<String>>,
    /// Tool calls made by the assistant.
    pub tool_calls: Option<Vec<ToolCall>>,
    /// Tool call identity, for tool response messages.
    pub tool_call_id: Option<String>,
}

/// Ghost-level model of a `ChatMessage`.
pub struct ChatMessageV {
    pub role: MessageRole,
    pub content: Seq<char>,
    pub images: Option<Seq<Seq<char>>>,
    pub tool_calls: Option<Seq<ToolCallV>>,
    pub tool_call_id: Option<Seq<char>>,
}

impl View for ChatMessage {
    type V = ChatMessageV;

    open spec fn view(&self) -> ChatMessageV {
        ChatMessageV {
            role: self.role,
            content: self.content@,
            images: match self.images {
                Some(v) => Some(v.deep_view()),
                None => None,
            },
            tool_calls: match self.tool_calls {
                Some(v) => Some(v.deep_view()),
                None => None,
            },
            tool_call_id: match self.tool_call_id {
                Some(s) => Some(s@),
                None => None,
            },
        }
    }
}

impl ChatMessage {
    /// A system message with the given content and nothing else.
    pub fn system(content: String) -> (r: Self)
        ensures
            r.role == MessageRole::System,
            r.content@ == content@,
            r.images is None,
            r.tool_calls is None,
            r.tool_call_id is None,
    {
        ChatMessage {
            role: MessageRole::System,
            content,
            images: None,
            tool_calls: None,
            tool_call_id: None,
        }
    }

    /// A user message with the given content and nothing else.
    pub fn user(content: String) -> (r: Self)
        ensures
            r.role == MessageRole::User,
            r.content@ == content@,
            r.images is None,
            r.tool_calls is None,
            r.tool_call_id is None,
    {
        ChatMessage {
            role: MessageRole::User,
            content,
            images: None,
            tool_calls: None,
            tool_call_id: None,
        }
    }

    /// An assistant message with the given content and nothing else.
    pub fn assistant(content: String) -> (r: Self)
        ensures
            r.role == MessageRole::Assistant,
            r.content@ == content@,
            r.images is None,
            r.tool_calls is None,
            r.tool_call_id is None,
    {
        ChatMessage {
            role: MessageRole::Assistant,
            content,
            images: None,
            tool_calls: None,
            tool_call_id: None,
        }
    }

    /// A tool response message answering the named tool call.
    pub fn tool(content: String, tool_call_id: String) -> (r: Self)
        ensures
            r.role == MessageRole::Tool,
            r.content@ == content@,
            r.images is None,
            r.tool_calls is None,
            r.tool_call_id matches Some(id) && id@ == tool_call_id@,
    {
        ChatMessage {
            role: MessageRole::Tool,
            content,
            images: None,
            tool_calls: None,
            tool_call_id: Some(tool_call_id),
        }
    }

    /// The same message with the given images attached.
    pub fn with_images(self, images: Vec<String>) -> (r: Self)
        ensures
            r.role == self.role,
            r.content@ == self.content@,
            r.images matches Some(v) && v.deep_view() == images.deep_view(),
            r.tool_calls == self.tool_calls,
            r.tool_call_id == self.tool_call_id,
    {
        ChatMessage { images: Some(images), ..self }
    }

    /// The same message with the given tool calls attached.
    pub fn with_tool_calls(self, tool_calls: Vec<ToolCall>) -> (r: Self)
        ensures
            r.role == self.role,
            r.content@ == self.content@,
            r.images == self.images,
            r.tool_calls matches Some(v) && v.deep_view() == tool_calls.deep_view(),
            r.tool_call_id == self.tool_call_id,
    {
        ChatMessage { tool_calls: Some(tool_calls), ..self }
    }
}

/// Choice of tool-use strategy for a chat request.
#[derive(Debug, Clone)]
pub enum ToolChoice {
    /// Let the model choose when to use tools.
    Auto(String),
    /// Never use tools.
    Disabled(String),
    /// Always use tools.
    Required(String),
    /// Use one specific tool.
    Specific { tool_type: String, function: FunctionChoice },
}

/// Names the function forced by `ToolChoice::Specific`.
#[derive(Debug, Clone)]
pub struct FunctionChoice {
    pub name: String,
}

/// Response from chat completion. In a streamed exchange each instance is
/// one chunk whose message content is incremental; the chunk with
/// `done == true` is terminal and carries the timing and count fields.
#[derive(Debug, Clone, PartialEq, Eq)]
pub struct ChatResponse {
    /// The model that was used.
    pub model: String,
    /// The generated message.
    pub message: ChatMessage,
    /// Whether this is the terminal chunk.
    pub done: bool,
    /// Total duration in nanoseconds.
    pub total_duration: Option<u64>,
    /// Load duration in nanoseconds.
    pub load_duration: Option<u64>,
    /// Prompt evaluation count.
    pub prompt_eval_count: Option<u32>,
    /// Prompt evaluation duration in nanoseconds.
    pub prompt_eval_duration: Option<u64>,
    /// Evaluation count.
    pub eval_count: Option<u32>,
    /// Evaluation duration in nanoseconds.
    pub eval_duration: Option<u64>,
}

/// Ghost-level model of a `ChatResponse`.
pub struct ChatResponseV {
    pub model: Seq<char>,
    pub message: ChatMessageV,
    pub done: bool,
    pub total_duration: Option<u64>,
    pub load_duration: Option<u64>,
    pub prompt_eval_count: Option<u32>,
    pub prompt_eval_duration: Option<u64>,
    pub eval_count: Option<u32>,
    pub eval_duration: Option<u64>,
}

impl View for ChatResponse {
    type V = ChatResponseV;

    open spec fn view(&self) -> ChatResponseV {
        ChatResponseV {
            model: self.model@,
            message: self.message@,
            done: self.done,
            total_duration: self.total_duration,
            load_duration: self.load_duration,
            prompt_eval_count: self.prompt_eval_count,
            prompt_eval_duration: self.prompt_eval_duration,
            eval_count: self.eval_count,
            eval_duration: self.eval_duration,
        }
    }
}

impl ChatResponse {
    /// The message content.
    pub fn content(&self) -> (r: &str)
        ensures
            r@ == self.message.content@,
    {
        self.message.content.as_str()
    }

    /// Whether the message carries tool calls.
    pub fn has_tool_calls(&self) -> (r: bool)
        ensures
            r == (self.message.tool_calls is Some),
    {
        self.message.tool_calls.is_some()
    }

    /// The tool calls, where the message carries any.
    pub fn tool_calls(&self) -> (r: Option<&Vec<ToolCall>>)
        ensures
            match self.message.tool_calls {
                Some(_) => r matches Some(v) && self.message.tool_calls matches Some(w) && v == &w,
                None => r is None,
            },
    {
        self.message.tool_calls.as_ref()
    }
}

} // verus!
