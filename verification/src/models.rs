//! The canonical, provider-agnostic request and response shapes.
//!
//! Every type here carries a mathematical view (`deep_view`) over which the
//! adapter and decoder contracts are stated.  Sampling parameters that are
//! floating-point on the wire (`temperature`, `top_p`, the penalties, the
//! logit biases) are carried opaquely as their IEEE-754 bit patterns: the
//! core never computes with them, it only passes them through, and the
//! unverified transport shell converts at the boundary.

use vstd::prelude::*;
use crate::error::ModelError;
use crate::types::TokenUsage;
use crate::utils::{json_text_ok, parse_json};

verus! {

/// Chat message role.
#[derive(Debug, Clone, Copy, PartialEq, Eq, Hash, Structural)]
pub enum MessageRole {
    System,
    User,
    Assistant,
    Tool,
}

impl DeepView for MessageRole {
    type V = MessageRole;

    open spec fn deep_view(&self) -> MessageRole {
        *self
    }
}

/// Image URL for vision models.
#[derive(Debug, PartialEq)]
pub struct ImageUrl {
    pub url: String,
    pub detail: Option<String>,
}

/// Mathematical view of an [`ImageUrl`].
#[verifier::ext_equal]
pub struct ImageUrlView {
    pub url: Seq<char>,
    pub detail: Option<Seq<char>>,
}

impl DeepView for ImageUrl {
    type V = ImageUrlView;

    open spec fn deep_view(&self) -> ImageUrlView {
        ImageUrlView { url: self.url.deep_view(), detail: self.detail.deep_view() }
    }
}

/// Content item for multimodal messages.
#[derive(Debug, PartialEq)]
pub enum ContentItem {
    Text { text: String },
    Image { image_url: ImageUrl },
}

/// Mathematical view of a [`ContentItem`].
#[verifier::ext_equal]
pub enum ContentItemView {
    Text { text: Seq<char> },
    Image { image_url: ImageUrlView },
}

impl DeepView for ContentItem {
    type V = ContentItemView;

    open spec fn deep_view(&self) -> ContentItemView {
        match self {
            ContentItem::Text { text } => ContentItemView::Text { text: text.deep_view() },
            ContentItem::Image { image_url } => ContentItemView::Image {
                image_url: image_url.deep_view(),
            },
        }
    }
}

/// Function call requested by a model.
#[derive(Debug, PartialEq)]
pub struct FunctionCall {
    pub name: String,
    /// The call's arguments, as JSON text.
    pub arguments: String,
}

/// Mathematical view of a [`FunctionCall`].
#[verifier::ext_equal]
pub struct FunctionCallView {
    pub name: Seq<char>,
    pub arguments: Seq<char>,
}

impl DeepView for FunctionCall {
    type V = FunctionCallView;

    open spec fn deep_view(&self) -> FunctionCallView {
        FunctionCallView { name: self.name.deep_view(), arguments: self.arguments.deep_view() }
    }
}

/// Tool call carried inside a message.
#[derive(Debug, PartialEq)]
pub struct ToolCall {
    pub id: String,
    pub call_type: String,
    pub function: FunctionCall,
}

/// Mathematical view of a [`ToolCall`].
#[verifier::ext_equal]
pub struct ToolCallView {
    pub id: Seq<char>,
    pub call_type: Seq<char>,
    pub function: FunctionCallView,
}

impl DeepView for ToolCall {
    type V = ToolCallView;

    open spec fn deep_view(&self) -> ToolCallView {
        ToolCallView {
            id: self.id.deep_view(),
            call_type: self.call_type.deep_view(),
            function: self.function.deep_view(),
        }
    }
}

/// Chat message.
#[derive(Debug, PartialEq)]
pub struct ChatMessage {
    pub role: MessageRole,
    pub content: String,
    pub name: Option<String>,
    pub tool_calls: Option<Vec<ToolCall>>,
    pub tool_call_id: Option<String>,
}

/// Mathematical view of a [`ChatMessage`].
#[verifier::ext_equal]
pub struct ChatMessageView {
    pub role: MessageRole,
    pub content: Seq<char>,
    pub name: Option<Seq<char>>,
    pub tool_calls: Option<Seq<ToolCallView>>,
    pub tool_call_id: Option<Seq<char>>,
}

impl DeepView for ChatMessage {
    type V = ChatMessageView;

    open spec fn deep_view(&self) -> ChatMessageView {
        ChatMessageView {
            role: self.role,
            content: self.content.deep_view(),
            name: self.name.deep_view(),
            tool_calls: self.tool_calls.deep_view(),
            tool_call_id: self.tool_call_id.deep_view(),
        }
    }
}

/// Function definition offered to a model for function calling.
#[derive(Debug, PartialEq)]
pub struct FunctionDefinition {
    pub name: String,
    pub description: Option<String>,
    /// JSON schema of the function's parameters, as JSON text.
    pub parameters: String,
}

/// Mathematical view of a [`FunctionDefinition`].
#[verifier::ext_equal]
pub struct FunctionDefinitionView {
    pub name: Seq<char>,
    pub description: Option<Seq<char>>,
    pub parameters: Seq<char>,
}

impl DeepView for FunctionDefinition {
    type V = FunctionDefinitionView;

    open spec fn deep_view(&self) -> FunctionDefinitionView {
        FunctionDefinitionView {
            name: self.name.deep_view(),
            description: self.description.deep_view(),
            parameters: self.parameters.deep_view(),
        }
    }
}

/// Tool definition.
#[derive(Debug, PartialEq)]
pub struct Tool {
    pub tool_type: String,
    pub function: FunctionDefinition,
}

/// Mathematical view of a [`Tool`].
#[verifier::ext_equal]
pub struct ToolView {
    pub tool_type: Seq<char>,
    pub function: FunctionDefinitionView,
}

impl DeepView for Tool {
    type V = ToolView;

    open spec fn deep_view(&self) -> ToolView {
        ToolView { tool_type: self.tool_type.deep_view(), function: self.function.deep_view() }
    }
}

/// Explicit function choice.
#[derive(Debug, PartialEq)]
pub struct FunctionChoice {
    pub name: String,
}

/// Mathematical view of a [`FunctionChoice`].
#[verifier::ext_equal]
pub struct FunctionChoiceView {
    pub name: Seq<char>,
}

impl DeepView for FunctionChoice {
    type V = FunctionChoiceView;

    open spec fn deep_view(&self) -> FunctionChoiceView {
        FunctionChoiceView { name: self.name.deep_view() }
    }
}

/// Tool choice policy.
#[derive(Debug, PartialEq)]
pub enum ToolChoice {
    Disabled,
    Auto,
    Function { function: FunctionChoice },
}

/// Mathematical view of a [`ToolChoice`].
#[verifier::ext_equal]
pub enum ToolChoiceView {
    Disabled,
    Auto,
    Function { function: FunctionChoiceView },
}

impl DeepView for ToolChoice {
    type V = ToolChoiceView;

    open spec fn deep_view(&self) -> ToolChoiceView {
        match self {
            ToolChoice::Disabled => ToolChoiceView::Disabled,
            ToolChoice::Auto => ToolChoiceView::Auto,
            ToolChoice::Function { function } => ToolChoiceView::Function {
                function: function.deep_view(),
            },
        }
    }
}

/// Chat completion request.
#[derive(Debug, PartialEq)]
pub struct ChatRequest {
    pub model: String,
    pub messages: Vec<ChatMessage>,
    /// IEEE-754 bit pattern of the sampling temperature.
    pub temperature_bits: Option<u32>,
    /// IEEE-754 bit pattern of the nucleus-sampling threshold.
    pub top_p_bits: Option<u32>,
    pub n: Option<u32>,
    pub stream: Option<bool>,
    pub stop: Option<Vec<String>>,
    pub max_tokens: Option<u32>,
    /// IEEE-754 bit pattern of the presence penalty.
    pub presence_penalty_bits: Option<u32>,
    /// IEEE-754 bit pattern of the frequency penalty.
    pub frequency_penalty_bits: Option<u32>,
    /// Per-token bias, each value an IEEE-754 bit pattern.
    pub logit_bias_bits: Option<Vec<(String, u32)>>,
    pub user: Option<String>,
    pub tools: Option<Vec<Tool>>,
    pub tool_choice: Option<ToolChoice>,
}

/// Mathematical view of a [`ChatRequest`].
#[verifier::ext_equal]
pub struct ChatRequestView {
    pub model: Seq<char>,
    pub messages: Seq<ChatMessageView>,
    pub temperature_bits: Option<u32>,
    pub top_p_bits: Option<u32>,
    pub n: Option<u32>,
    pub stream: Option<bool>,
    pub stop: Option<Seq<Seq<char>>>,
    pub max_tokens: Option<u32>,
    pub presence_penalty_bits: Option<u32>,
    pub frequency_penalty_bits: Option<u32>,
    pub logit_bias_bits: Option<Seq<(Seq<char>, u32)>>,
    pub user: Option<Seq<char>>,
    pub tools: Option<Seq<ToolView>>,
    pub tool_choice: Option<ToolChoiceView>,
}

impl DeepView for ChatRequest {
    type V = ChatRequestView;

    open spec fn deep_view(&self) -> ChatRequestView {
        ChatRequestView {
            model: self.model.deep_view(),
            messages: self.messages.deep_view(),
            temperature_bits: self.temperature_bits,
            top_p_bits: self.top_p_bits,
            n: self.n,
            stream: self.stream,
            stop: self.stop.deep_view(),
            max_tokens: self.max_tokens,
            presence_penalty_bits: self.presence_penalty_bits,
            frequency_penalty_bits: self.frequency_penalty_bits,
            logit_bias_bits: self.logit_bias_bits.deep_view(),
            user: self.user.deep_view(),
            tools: self.tools.deep_view(),
            tool_choice: self.tool_choice.deep_view(),
        }
    }
}

/// Chat completion choice.
#[derive(Debug, PartialEq)]
pub struct ChatChoice {
    pub index: u32,
    pub message: ChatMessage,
    pub finish_reason: Option<String>,
}

/// Mathematical view of a [`ChatChoice`].
#[verifier::ext_equal]
pub struct ChatChoiceView {
    pub index: u32,
    pub message: ChatMessageView,
    pub finish_reason: Option<Seq<char>>,
}

impl DeepView for ChatChoice {
    type V = ChatChoiceView;

    open spec fn deep_view(&self) -> ChatChoiceView {
        ChatChoiceView {
            index: self.index,
            message: self.message.deep_view(),
            finish_reason: self.finish_reason.deep_view(),
        }
    }
}

/// Chat completion response.
#[derive(Debug, PartialEq)]
pub struct ChatResponse {
    pub id: String,
    pub object: String,
    pub created: u64,
    pub model: String,
    pub choices: Vec<ChatChoice>,
    pub usage: Option<TokenUsage>,
}

/// Mathematical view of a [`ChatResponse`].
#[verifier::ext_equal]
pub struct ChatResponseView {
    pub id: Seq<char>,
    pub object: Seq<char>,
    pub created: u64,
    pub model: Seq<char>,
    pub choices: Seq<ChatChoiceView>,
    pub usage: Option<TokenUsage>,
}

impl DeepView for ChatResponse {
    type V = ChatResponseView;

    open spec fn deep_view(&self) -> ChatResponseView {
        ChatResponseView {
            id: self.id.deep_view(),
            object: self.object.deep_view(),
            created: self.created,
            model: self.model.deep_view(),
            choices: self.choices.deep_view(),
            usage: self.usage.deep_view(),
        }
    }
}

/// Streaming chat completion choice.
#[derive(Debug, PartialEq)]
pub struct StreamingChatChoice {
    pub index: u32,
    pub delta: Option<ChatMessage>,
    pub finish_reason: Option<String>,
}

/// Mathematical view of a [`StreamingChatChoice`].
#[verifier::ext_equal]
pub struct StreamingChatChoiceView {
    pub index: u32,
    pub delta: Option<ChatMessageView>,
    pub finish_reason: Option<Seq<char>>,
}

impl DeepView for StreamingChatChoice {
    type V = StreamingChatChoiceView;

    open spec fn deep_view(&self) -> StreamingChatChoiceView {
        StreamingChatChoiceView {
            index: self.index,
            delta: self.delta.deep_view(),
            finish_reason: self.finish_reason.deep_view(),
        }
    }
}

/// One incremental update within a streaming response.
#[derive(Debug, PartialEq)]
pub struct StreamingChatResponse {
    pub id: String,
    pub object: String,
    pub created: u64,
    pub model: String,
    pub choices: Vec<StreamingChatChoice>,
}

/// Mathematical view of a [`StreamingChatResponse`].
#[verifier::ext_equal]
pub struct StreamingChatResponseView {
    pub id: Seq<char>,
    pub object: Seq<char>,
    pub created: u64,
    pub model: Seq<char>,
    pub choices: Seq<StreamingChatChoiceView>,
}

impl DeepView for StreamingChatResponse {
    type V = StreamingChatResponseView;

    open spec fn deep_view(&self) -> StreamingChatResponseView {
        StreamingChatResponseView {
            id: self.id.deep_view(),
            object: self.object.deep_view(),
            created: self.created,
            model: self.model.deep_view(),
            choices: self.choices.deep_view(),
        }
    }
}

// ---------------------------------------------------------------------------
// Construction
// ---------------------------------------------------------------------------

impl ChatMessage {
    pub fn new(role: MessageRole, content: String) -> (r: Self)
        ensures
            r == (ChatMessage {
                role,
                content,
                name: None,
                tool_calls: None,
                tool_call_id: None,
            }),
    {
        ChatMessage { role, content, name: None, tool_calls: None, tool_call_id: None }
    }

    pub fn system(content: String) -> (r: Self)
        ensures
            r == (ChatMessage {
                role: MessageRole::System,
                content,
                name: None,
                tool_calls: None,
                tool_call_id: None,
            }),
    {
        ChatMessage::new(MessageRole::System, content)
    }

    pub fn user(content: String) -> (r: Self)
        ensures
            r == (ChatMessage {
                role: MessageRole::User,
                content,
                name: None,
                tool_calls: None,
                tool_call_id: None,
            }),
    {
        ChatMessage::new(MessageRole::User, content)
    }

    pub fn assistant(content: String) -> (r: Self)
        ensures
            r == (ChatMessage {
                role: MessageRole::Assistant,
                content,
                name: None,
                tool_calls: None,
                tool_call_id: None,
            }),
    {
        ChatMessage::new(MessageRole::Assistant, content)
    }

    pub fn tool(content: String, tool_call_id: String) -> (r: Self)
        ensures
            r == (ChatMessage {
                role: MessageRole::Tool,
                content,
                name: None,
                tool_calls: None,
                tool_call_id: Some(tool_call_id),
            }),
    {
        ChatMessage {
            role: MessageRole::Tool,
            content,
            name: None,
            tool_calls: None,
            tool_call_id: Some(tool_call_id),
        }
    }

    pub fn with_name(self, name: String) -> (r: Self)
        ensures
            r == (ChatMessage { name: Some(name), ..self }),
    {
        ChatMessage { name: Some(name), ..self }
    }

    pub fn with_tool_calls(self, tool_calls: Vec<ToolCall>) -> (r: Self)
        ensures
            r == (ChatMessage { tool_calls: Some(tool_calls), ..self }),
    {
        ChatMessage { tool_calls: Some(tool_calls), ..self }
    }
}

impl FunctionCall {
    pub fn new(name: String, arguments: String) -> (r: Self)
        ensures
            r == (FunctionCall { name, arguments }),
    {
        FunctionCall { name, arguments }
    }

    /// Parse the arguments as JSON.
    pub fn parse_arguments(&self) -> (r: Result<serde_json::Value, ModelError>)
        ensures
            r.is_ok() == json_text_ok(self.arguments@),
            r matches Err(e) ==> e is Serialization,
    {
        parse_json(self.arguments.as_str())
    }
}

impl ChatRequest {
    pub fn new(model: String, messages: Vec<ChatMessage>) -> (r: Self)
        ensures
            r == (ChatRequest {
                model,
                messages,
                temperature_bits: None,
                top_p_bits: None,
                n: None,
                stream: None,
                stop: None,
                max_tokens: None,
                presence_penalty_bits: None,
                frequency_penalty_bits: None,
                logit_bias_bits: None,
                user: None,
                tools: None,
                tool_choice: None,
            }),
    {
        ChatRequest {
            model,
            messages,
            temperature_bits: None,
            top_p_bits: None,
            n: None,
            stream: None,
            stop: None,
            max_tokens: None,
            presence_penalty_bits: None,
            frequency_penalty_bits: None,
            logit_bias_bits: None,
            user: None,
            tools: None,
            tool_choice: None,
        }
    }

    /// Sets the sampling temperature, given as its IEEE-754 bit pattern.
    pub fn with_temperature(self, temperature_bits: u32) -> (r: Self)
        ensures
            r == (ChatRequest { temperature_bits: Some(temperature_bits), ..self }),
    {
        ChatRequest { temperature_bits: Some(temperature_bits), ..self }
    }

    pub fn with_max_tokens(self, max_tokens: u32) -> (r: Self)
        ensures
            r == (ChatRequest { max_tokens: Some(max_tokens), ..self }),
    {
        ChatRequest { max_tokens: Some(max_tokens), ..self }
    }

    pub fn with_stream(self, stream: bool) -> (r: Self)
        ensures
            r == (ChatRequest { stream: Some(stream), ..self }),
    {
        ChatRequest { stream: Some(stream), ..self }
    }

    pub fn with_tools(self, tools: Vec<Tool>) -> (r: Self)
        ensures
            r == (ChatRequest { tools: Some(tools), ..self }),
    {
        ChatRequest { tools: Some(tools), ..self }
    }

    pub fn with_tool_choice(self, tool_choice: ToolChoice) -> (r: Self)
        ensures
            r == (ChatRequest { tool_choice: Some(tool_choice), ..self }),
    {
        ChatRequest { tool_choice: Some(tool_choice), ..self }
    }
}

impl ChatResponse {
    /// The canonical content of a response: the first choice's message text.
    pub fn get_content(&self) -> (r: Option<&str>)
        ensures
            self.choices.len() > 0 ==> (r matches Some(s) && s@
                == self.choices[0].message.content@),
            self.choices.len() == 0 ==> r is None,
    {
        if self.choices.len() > 0 {
            Some(self.choices[0].message.content.as_str())
        } else {
            None
        }
    }

    /// The tool calls of the first choice's message, if any.
    pub fn get_tool_calls(&self) -> (r: Option<&Vec<ToolCall>>)
        ensures
            (self.choices.len() > 0 && self.choices[0].message.tool_calls is Some) ==> (
            r matches Some(tc) && *tc == self.choices[0].message.tool_calls->0),
            (self.choices.len() == 0 || self.choices[0].message.tool_calls is None) ==> r is None,
    {
        if self.choices.len() > 0 {
            self.choices[0].message.tool_calls.as_ref()
        } else {
            None
        }
    }
}

// ---------------------------------------------------------------------------
// Deep copies
//
// The clone of a value is a new value with the same mathematical view; the
// contracts say so, which a derived `Clone` could not.
// ---------------------------------------------------------------------------

fn clone_opt_string(o: &Option<String>) -> (r: Option<String>)
    ensures
        r.deep_view() == o.deep_view(),
{
    match o {
        Some(s) => Some(s.clone()),
        None => None,
    }
}

fn clone_string_vec(v: &Vec<String>) -> (r: Vec<String>)
    ensures
        r.deep_view() == v.deep_view(),
{
    let mut r: Vec<String> = Vec::new();
    let mut i: usize = 0;
    while i < v.len()
        invariant
            i <= v.len(),
            r.len() == i,
            forall|j: int| 0 <= j < i ==> r@[j].deep_view() == v@[j].deep_view(),
        decreases v.len() - i,
    {
        r.push(v[i].clone());
        i = i + 1;
    }
    proof {
        assert(r.deep_view() =~= v.deep_view());
    }
    r
}

fn clone_tool_calls(v: &Vec<ToolCall>) -> (r: Vec<ToolCall>)
    ensures
        r.deep_view() == v.deep_view(),
{
    let mut r: Vec<ToolCall> = Vec::new();
    let mut i: usize = 0;
    while i < v.len()
        invariant
            i <= v.len(),
            r.len() == i,
            forall|j: int| 0 <= j < i ==> r@[j].deep_view() == v@[j].deep_view(),
        decreases v.len() - i,
    {
        r.push(v[i].clone());
        i = i + 1;
    }
    proof {
        assert(r.deep_view() =~= v.deep_view());
    }
    r
}

fn clone_messages(v: &Vec<ChatMessage>) -> (r: Vec<ChatMessage>)
    ensures
        r.deep_view() == v.deep_view(),
{
    let mut r: Vec<ChatMessage> = Vec::new();
    let mut i: usize = 0;
    while i < v.len()
        invariant
            i <= v.len(),
            r.len() == i,
            forall|j: int| 0 <= j < i ==> r@[j].deep_view() == v@[j].deep_view(),
        decreases v.len() - i,
    {
        r.push(v[i].clone());
        i = i + 1;
    }
    proof {
        assert(r.deep_view() =~= v.deep_view());
    }
    r
}

fn clone_tools(v: &Vec<Tool>) -> (r: Vec<Tool>)
    ensures
        r.deep_view() == v.deep_view(),
{
    let mut r: Vec<Tool> = Vec::new();
    let mut i: usize = 0;
    while i < v.len()
        invariant
            i <= v.len(),
            r.len() == i,
            forall|j: int| 0 <= j < i ==> r@[j].deep_view() == v@[j].deep_view(),
        decreases v.len() - i,
    {
        r.push(v[i].clone());
        i = i + 1;
    }
    proof {
        assert(r.deep_view() =~= v.deep_view());
    }
    r
}

fn clone_logit_bias(v: &Vec<(String, u32)>) -> (r: Vec<(String, u32)>)
    ensures
        r.deep_view() == v.deep_view(),
{
    let mut r: Vec<(String, u32)> = Vec::new();
    let mut i: usize = 0;
    while i < v.len()
        invariant
            i <= v.len(),
            r.len() == i,
            forall|j: int| 0 <= j < i ==> r@[j].deep_view() == v@[j].deep_view(),
        decreases v.len() - i,
    {
        let entry = &v[i];
        r.push((entry.0.clone(), entry.1));
        i = i + 1;
    }
    proof {
        assert(r.deep_view() =~= v.deep_view());
    }
    r
}

impl Clone for ImageUrl {
    fn clone(&self) -> (r: Self)
        ensures
            r.deep_view() == self.deep_view(),
    {
        ImageUrl { url: self.url.clone(), detail: clone_opt_string(&self.detail) }
    }
}

impl Clone for ContentItem {
    fn clone(&self) -> (r: Self)
        ensures
            r.deep_view() == self.deep_view(),
    {
        match self {
            ContentItem::Text { text } => ContentItem::Text { text: text.clone() },
            ContentItem::Image { image_url } => ContentItem::Image {
                image_url: image_url.clone(),
            },
        }
    }
}

impl Clone for FunctionCall {
    fn clone(&self) -> (r: Self)
        ensures
            r.deep_view() == self.deep_view(),
    {
        FunctionCall { name: self.name.clone(), arguments: self.arguments.clone() }
    }
}

impl Clone for ToolCall {
    fn clone(&self) -> (r: Self)
        ensures
            r.deep_view() == self.deep_view(),
    {
        ToolCall {
            id: self.id.clone(),
            call_type: self.call_type.clone(),
            function: self.function.clone(),
        }
    }
}

impl Clone for ChatMessage {
    fn clone(&self) -> (r: Self)
        ensures
            r.deep_view() == self.deep_view(),
    {
        let tool_calls = match &self.tool_calls {
            Some(v) => Some(clone_tool_calls(v)),
            None => None,
        };
        ChatMessage {
            role: self.role,
            content: self.content.clone(),
            name: clone_opt_string(&self.name),
            tool_calls,
            tool_call_id: clone_opt_string(&self.tool_call_id),
        }
    }
}

impl Clone for FunctionDefinition {
    fn clone(&self) -> (r: Self)
        ensures
            r.deep_view() == self.deep_view(),
    {
        FunctionDefinition {
            name: self.name.clone(),
            description: clone_opt_string(&self.description),
            parameters: self.parameters.clone(),
        }
    }
}

impl Clone for Tool {
    fn clone(&self) -> (r: Self)
        ensures
            r.deep_view() == self.deep_view(),
    {
        Tool { tool_type: self.tool_type.clone(), function: self.function.clone() }
    }
}

impl Clone for FunctionChoice {
    fn clone(&self) -> (r: Self)
        ensures
            r.deep_view() == self.deep_view(),
    {
        FunctionChoice { name: self.name.clone() }
    }
}

impl Clone for ToolChoice {
    fn clone(&self) -> (r: Self)
        ensures
            r.deep_view() == self.deep_view(),
    {
        match self {
            ToolChoice::Disabled => ToolChoice::Disabled,
            ToolChoice::Auto => ToolChoice::Auto,
            ToolChoice::Function { function } => ToolChoice::Function {
                function: function.clone(),
            },
        }
    }
}

impl Clone for ChatRequest {
    fn clone(&self) -> (r: Self)
        ensures
            r.deep_view() == self.deep_view(),
    {
        let stop = match &self.stop {
            Some(v) => Some(clone_string_vec(v)),
            None => None,
        };
        let logit_bias_bits = match &self.logit_bias_bits {
            Some(v) => Some(clone_logit_bias(v)),
            None => None,
        };
        let tools = match &self.tools {
            Some(v) => Some(clone_tools(v)),
            None => None,
        };
        let tool_choice = match &self.tool_choice {
            Some(c) => Some(c.clone()),
            None => None,
        };
        ChatRequest {
            model: self.model.clone(),
            messages: clone_messages(&self.messages),
            temperature_bits: self.temperature_bits,
            top_p_bits: self.top_p_bits,
            n: self.n,
            stream: self.stream,
            stop,
            max_tokens: self.max_tokens,
            presence_penalty_bits: self.presence_penalty_bits,
            frequency_penalty_bits: self.frequency_penalty_bits,
            logit_bias_bits,
            user: clone_opt_string(&self.user),
            tools,
            tool_choice,
        }
    }
}

impl Clone for ChatChoice {
    fn clone(&self) -> (r: Self)
        ensures
            r.deep_view() == self.deep_view(),
    {
        ChatChoice {
            index: self.index,
            message: self.message.clone(),
            finish_reason: clone_opt_string(&self.finish_reason),
        }
    }
}

fn clone_choices(v: &Vec<ChatChoice>) -> (r: Vec<ChatChoice>)
    ensures
        r.deep_view() == v.deep_view(),
{
    let mut r: Vec<ChatChoice> = Vec::new();
    let mut i: usize = 0;
    while i < v.len()
        invariant
            i <= v.len(),
            r.len() == i,
            forall|j: int| 0 <= j < i ==> r@[j].deep_view() == v@[j].deep_view(),
        decreases v.len() - i,
    {
        r.push(v[i].clone());
        i = i + 1;
    }
    proof {
        assert(r.deep_view() =~= v.deep_view());
    }
    r
}

impl Clone for ChatResponse {
    fn clone(&self) -> (r: Self)
        ensures
            r.deep_view() == self.deep_view(),
    {
        ChatResponse {
            id: self.id.clone(),
            object: self.object.clone(),
            created: self.created,
            model: self.model.clone(),
            choices: clone_choices(&self.choices),
            usage: self.usage,
        }
    }
}

impl Clone for StreamingChatChoice {
    fn clone(&self) -> (r: Self)
        ensures
            r.deep_view() == self.deep_view(),
    {
        let delta = match &self.delta {
            Some(m) => Some(m.clone()),
            None => None,
        };
        StreamingChatChoice {
            index: self.index,
            delta,
            finish_reason: clone_opt_string(&self.finish_reason),
        }
    }
}

fn clone_stream_choices(v: &Vec<StreamingChatChoice>) -> (r: Vec<StreamingChatChoice>)
    ensures
        r.deep_view() == v.deep_view(),
{
    let mut r: Vec<StreamingChatChoice> = Vec::new();
    let mut i: usize = 0;
    while i < v.len()
        invariant
            i <= v.len(),
            r.len() == i,
            forall|j: int| 0 <= j < i ==> r@[j].deep_view() == v@[j].deep_view(),
        decreases v.len() - i,
    {
        r.push(v[i].clone());
        i = i + 1;
    }
    proof {
        assert(r.deep_view() =~= v.deep_view());
    }
    r
}

impl Clone for StreamingChatResponse {
    fn clone(&self) -> (r: Self)
        ensures
            r.deep_view() == self.deep_view(),
    {
        StreamingChatResponse {
            id: self.id.clone(),
            object: self.object.clone(),
            created: self.created,
            model: self.model.clone(),
            choices: clone_stream_choices(&self.choices),
        }
    }
}

} // verus!
