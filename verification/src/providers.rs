//! Provider adapters: translation between the canonical shapes and the two
//! wire protocols.
//!
//! The network call itself lives outside this library; everything the
//! adapters decide is here: the endpoint URL, the outgoing body (a local
//! annotated copy — the caller's request is never changed), the
//! classification of the HTTP status, and the mapping of the
//! provider-native response into the canonical shape.

use vstd::prelude::*;
use vstd::string::*;
use crate::error::ModelError;
use crate::models::{
    ChatChoice, ChatChoiceView, ChatMessage, ChatMessageView, ChatRequest, ChatRequestView,
    ChatResponse, ChatResponseView, MessageRole,
};
use crate::types::{ProviderId, TokenUsage};
use crate::utils::str_eq;

verus! {

// ---------------------------------------------------------------------------
// Endpoint URLs
// ---------------------------------------------------------------------------

/// `s` with every trailing slash removed.
pub open spec fn spec_trim_slashes(s: Seq<char>) -> Seq<char>
    decreases s.len(),
{
    if s.len() > 0 && s[s.len() - 1] == '/' {
        spec_trim_slashes(s.drop_last())
    } else {
        s
    }
}

/// Removes trailing slashes from a base URL.
fn trim_trailing_slashes(s: &str) -> (r: String)
    ensures
        r@ == spec_trim_slashes(s@),
{
    let n = s.unicode_len();
    let mut cut: usize = n;
    proof {
        assert(s@.take(n as int) =~= s@);
    }
    while cut > 0 && s.get_char(cut - 1) == '/'
        invariant
            cut <= n,
            n == s@.len(),
            spec_trim_slashes(s@) == spec_trim_slashes(s@.take(cut as int)),
        decreases cut,
    {
        proof {
            assert(s@.take(cut as int).drop_last() =~= s@.take(cut - 1));
            assert(s@.take(cut as int).last() == s@[cut - 1]);
        }
        cut = cut - 1;
    }
    let prefix = s.substring_char(0, cut);
    proof {
        if cut > 0 {
            assert(s@.take(cut as int)[cut - 1] == s@[cut - 1]);
        }
        assert(s@.take(cut as int) == prefix@);
    }
    String::from_str(prefix)
}

/// The chat-completions endpoint of an OpenAI-style base URL.
pub fn openai_chat_url(api_base: &str) -> (r: String)
    ensures
        r@ == spec_trim_slashes(api_base@) + "/v1/chat/completions"@,
{
    trim_trailing_slashes(api_base).concat("/v1/chat/completions")
}

/// The messages endpoint of an Anthropic-style base URL.
pub fn anthropic_messages_url(api_base: &str) -> (r: String)
    ensures
        r@ == spec_trim_slashes(api_base@) + "/v1/messages"@,
{
    trim_trailing_slashes(api_base).concat("/v1/messages")
}

// ---------------------------------------------------------------------------
// Status classification at the adapter
// ---------------------------------------------------------------------------

/// Whether an HTTP status is a success.
pub open spec fn spec_is_success_status(status: u16) -> bool {
    200 <= status < 300
}

/// The adapters' whole reading of an HTTP status: any non-2xx status is
/// `UnexpectedStatus` with the body captured opaquely; nothing more is
/// interpreted at this layer.
pub fn error_for_status(status: u16, body: String) -> (r: Option<ModelError>)
    ensures
        spec_is_success_status(status) ==> r is None,
        !spec_is_success_status(status) ==> r == Some(ModelError::UnexpectedStatus(status, body)),
{
    if 200 <= status && status < 300 {
        None
    } else {
        Some(ModelError::UnexpectedStatus(status, body))
    }
}

// ---------------------------------------------------------------------------
// Outgoing bodies
// ---------------------------------------------------------------------------

/// The default `max_tokens` an Anthropic-style body carries when the
/// caller set none.
pub open spec fn spec_default_max_tokens() -> u32 {
    1024
}

/// The body an OpenAI-style adapter sends: the canonical request itself,
/// with the stream flag forced to the operation in use.
pub fn openai_request_body(req: &ChatRequest, stream: bool) -> (r: ChatRequest)
    ensures
        r.deep_view() == (ChatRequestView { stream: Some(stream), ..req.deep_view() }),
{
    let mut body = req.clone();
    body.stream = Some(stream);
    proof {
        assert(body.deep_view() =~~= (ChatRequestView { stream: Some(stream), ..req.deep_view() }));
    }
    body
}

/// The body an Anthropic-style adapter sends.
#[derive(Debug, PartialEq)]
pub struct AnthropicRequest {
    pub model: String,
    pub max_tokens: u32,
    pub messages: Vec<ChatMessage>,
    pub stream: bool,
}

/// Mathematical view of an [`AnthropicRequest`].
#[verifier::ext_equal]
pub struct AnthropicRequestView {
    pub model: Seq<char>,
    pub max_tokens: u32,
    pub messages: Seq<ChatMessageView>,
    pub stream: bool,
}

impl DeepView for AnthropicRequest {
    type V = AnthropicRequestView;

    open spec fn deep_view(&self) -> AnthropicRequestView {
        AnthropicRequestView {
            model: self.model.deep_view(),
            max_tokens: self.max_tokens,
            messages: self.messages.deep_view(),
            stream: self.stream,
        }
    }
}

/// Builds the Anthropic-style body: same model and messages, the
/// mandatory `max_tokens` defaulted when the caller set none, and the
/// stream flag of the operation in use.  The caller's request is read,
/// never changed.
pub fn anthropic_request_body(req: &ChatRequest, stream: bool) -> (r: AnthropicRequest)
    ensures
        r.deep_view() == (AnthropicRequestView {
            model: req.deep_view().model,
            max_tokens: match req.max_tokens {
                Some(m) => m,
                None => spec_default_max_tokens(),
            },
            messages: req.deep_view().messages,
            stream,
        }),
{
    let body = req.clone();
    let max_tokens = match body.max_tokens {
        Some(m) => m,
        None => 1024,
    };
    let r = AnthropicRequest { model: body.model, max_tokens, messages: body.messages, stream };
    proof {
        assert(r.deep_view() =~~= (AnthropicRequestView {
            model: req.deep_view().model,
            max_tokens: match req.max_tokens {
                Some(m) => m,
                None => spec_default_max_tokens(),
            },
            messages: req.deep_view().messages,
            stream,
        }));
    }
    r
}

// ---------------------------------------------------------------------------
// The Anthropic wire response and its canonical reading
// ---------------------------------------------------------------------------

/// One content block of an Anthropic-style response.
#[derive(Debug, PartialEq)]
pub struct AnthropicContentBlock {
    pub block_type: String,
    pub text: String,
}

/// Mathematical view of an [`AnthropicContentBlock`].
#[verifier::ext_equal]
pub struct AnthropicContentBlockView {
    pub block_type: Seq<char>,
    pub text: Seq<char>,
}

impl DeepView for AnthropicContentBlock {
    type V = AnthropicContentBlockView;

    open spec fn deep_view(&self) -> AnthropicContentBlockView {
        AnthropicContentBlockView {
            block_type: self.block_type.deep_view(),
            text: self.text.deep_view(),
        }
    }
}

/// Token counts of an Anthropic-style response.
#[derive(Debug, Clone, Copy, PartialEq, Eq, Structural)]
pub struct AnthropicUsage {
    pub input_tokens: u32,
    pub output_tokens: u32,
}

impl DeepView for AnthropicUsage {
    type V = AnthropicUsage;

    open spec fn deep_view(&self) -> AnthropicUsage {
        *self
    }
}

/// An Anthropic-style response, as the wire carries it.
#[derive(Debug, PartialEq)]
pub struct AnthropicResponse {
    pub id: String,
    pub model: String,
    pub content: Vec<AnthropicContentBlock>,
    pub stop_reason: Option<String>,
    pub usage: Option<AnthropicUsage>,
}

/// Mathematical view of an [`AnthropicResponse`].
#[verifier::ext_equal]
pub struct AnthropicResponseView {
    pub id: Seq<char>,
    pub model: Seq<char>,
    pub content: Seq<AnthropicContentBlockView>,
    pub stop_reason: Option<Seq<char>>,
    pub usage: Option<AnthropicUsage>,
}

impl DeepView for AnthropicResponse {
    type V = AnthropicResponseView;

    open spec fn deep_view(&self) -> AnthropicResponseView {
        AnthropicResponseView {
            id: self.id.deep_view(),
            model: self.model.deep_view(),
            content: self.content.deep_view(),
            stop_reason: self.stop_reason.deep_view(),
            usage: self.usage.deep_view(),
        }
    }
}

/// The text of the first `n` content blocks, text blocks concatenated in
/// order, other block kinds contributing nothing.
pub open spec fn spec_joined_text(blocks: Seq<AnthropicContentBlockView>, n: int) -> Seq<char>
    decreases n,
{
    if n <= 0 {
        Seq::<char>::empty()
    } else {
        spec_joined_text(blocks, n - 1) + (if blocks[n - 1].block_type == "text"@ {
            blocks[n - 1].text
        } else {
            Seq::<char>::empty()
        })
    }
}

/// An Anthropic stop reason read as a canonical finish reason.
pub open spec fn spec_map_stop_reason(s: Seq<char>) -> Seq<char> {
    if s == "end_turn"@ {
        "stop"@
    } else if s == "max_tokens"@ {
        "length"@
    } else if s == "stop_sequence"@ {
        "stop"@
    } else if s == "tool_use"@ {
        "tool_calls"@
    } else {
        s
    }
}

/// A canonical finish reason written as an Anthropic stop reason.
pub open spec fn spec_unmap_finish_reason(s: Seq<char>) -> Seq<char> {
    if s == "length"@ {
        "max_tokens"@
    } else if s == "tool_calls"@ {
        "tool_use"@
    } else {
        "end_turn"@
    }
}

/// The canonical reading of an Anthropic-style response: one choice whose
/// assistant message concatenates the text blocks, the stop reason mapped
/// to its canonical name, and the usage rebuilt from the two counts (so
/// the sum invariant holds whatever the wire said).
pub open spec fn spec_anthropic_to_canonical(w: AnthropicResponseView) -> ChatResponseView {
    ChatResponseView {
        id: w.id,
        object: "chat.completion"@,
        created: 0,
        model: w.model,
        choices: seq![
            ChatChoiceView {
                index: 0,
                message: ChatMessageView {
                    role: MessageRole::Assistant,
                    content: spec_joined_text(w.content, w.content.len() as int),
                    name: None,
                    tool_calls: None,
                    tool_call_id: None,
                },
                finish_reason: match w.stop_reason {
                    Some(s) => Some(spec_map_stop_reason(s)),
                    None => None,
                },
            },
        ],
        usage: match w.usage {
            Some(u) => Some(
                TokenUsage {
                    prompt_tokens: u.input_tokens,
                    completion_tokens: u.output_tokens,
                    total_tokens: if u.input_tokens + u.output_tokens <= u32::MAX {
                        (u.input_tokens + u.output_tokens) as u32
                    } else {
                        u32::MAX
                    },
                },
            ),
            None => None,
        },
    }
}

/// Reads an Anthropic-style wire response into the canonical shape, so
/// that what this adapter returns is indistinguishable in shape from the
/// OpenAI-style adapter's output.
pub fn anthropic_response_to_canonical(w: AnthropicResponse) -> (r: ChatResponse)
    ensures
        r.deep_view() == spec_anthropic_to_canonical(w.deep_view()),
{
    let ghost wv = w.deep_view();
    let mut content = String::new();
    let mut i: usize = 0;
    while i < w.content.len()
        invariant
            i <= w.content.len(),
            wv == w.deep_view(),
            content@ == spec_joined_text(wv.content, i as int),
        decreases w.content.len() - i,
    {
        let block = &w.content[i];
        if str_eq(block.block_type.as_str(), "text") {
            content.append(block.text.as_str());
        }
        i = i + 1;
    }
    let finish_reason: Option<String> = match &w.stop_reason {
        Some(s) => Some(map_stop_reason(s.as_str())),
        None => None,
    };
    let usage: Option<TokenUsage> = match &w.usage {
        Some(u) => Some(TokenUsage::normalized(u.input_tokens, u.output_tokens, 0)),
        None => None,
    };
    let message = ChatMessage {
        role: MessageRole::Assistant,
        content,
        name: None,
        tool_calls: None,
        tool_call_id: None,
    };
    let choice = ChatChoice { index: 0, message, finish_reason };
    let mut choices: Vec<ChatChoice> = Vec::new();
    choices.push(choice);
    let r = ChatResponse {
        id: w.id,
        object: String::from_str("chat.completion"),
        created: 0,
        model: w.model,
        choices,
        usage,
    };
    proof {
        assert(r.deep_view() =~~= spec_anthropic_to_canonical(wv));
    }
    r
}

/// Maps one stop reason string to its canonical name.
pub(crate) fn map_stop_reason(s: &str) -> (r: String)
    ensures
        r@ == spec_map_stop_reason(s@),
{
    if str_eq(s, "end_turn") {
        String::from_str("stop")
    } else if str_eq(s, "max_tokens") {
        String::from_str("length")
    } else if str_eq(s, "stop_sequence") {
        String::from_str("stop")
    } else if str_eq(s, "tool_use") {
        String::from_str("tool_calls")
    } else {
        String::from_str(s)
    }
}

// ---------------------------------------------------------------------------
// The adapters
// ---------------------------------------------------------------------------

/// The OpenAI-style adapter: its resolved credential and base URL.  The
/// transport handle that issues the call lives outside this library.
#[derive(Debug)]
pub struct OpenAIProvider {
    pub api_key: String,
    pub api_base: String,
}

impl OpenAIProvider {
    pub fn id(&self) -> (r: ProviderId)
        ensures
            r@ == "openai"@,
    {
        ProviderId::new(String::from_str("openai"))
    }

    /// The endpoint this adapter posts to.
    pub fn chat_url(&self) -> (r: String)
        ensures
            r@ == spec_trim_slashes(self.api_base@) + "/v1/chat/completions"@,
    {
        openai_chat_url(self.api_base.as_str())
    }
}

/// The Anthropic-style adapter: its resolved credential and base URL.
#[derive(Debug)]
pub struct ClaudeProvider {
    pub api_key: String,
    pub api_base: String,
}

impl ClaudeProvider {
    pub fn id(&self) -> (r: ProviderId)
        ensures
            r@ == "anthropic"@,
    {
        ProviderId::new(String::from_str("anthropic"))
    }

    /// The endpoint this adapter posts to.
    pub fn messages_url(&self) -> (r: String)
        ensures
            r@ == spec_trim_slashes(self.api_base@) + "/v1/messages"@,
    {
        anthropic_messages_url(self.api_base.as_str())
    }
}

// ---------------------------------------------------------------------------
// The wire round trip
// ---------------------------------------------------------------------------

/// The first choice's message text, as the convenience accessor reads it.
pub open spec fn spec_first_content(r: ChatResponseView) -> Option<Seq<char>> {
    if r.choices.len() > 0 {
        Some(r.choices[0].message.content)
    } else {
        None
    }
}

/// The first choice's finish reason.
pub open spec fn spec_first_finish(r: ChatResponseView) -> Option<Seq<char>> {
    if r.choices.len() > 0 {
        r.choices[0].finish_reason
    } else {
        None
    }
}

/// Equivalence of two canonical responses as a caller observes them:
/// same content, same usage, same finish reason.
pub open spec fn spec_responses_equivalent(a: ChatResponseView, b: ChatResponseView) -> bool {
    &&& spec_first_content(a) == spec_first_content(b)
    &&& a.usage == b.usage
    &&& spec_first_finish(a) == spec_first_finish(b)
}

/// What the Anthropic wire can carry back faithfully: at least one
/// choice, a usage that satisfies the sum invariant, and a finish reason
/// with one of the canonical names.
pub open spec fn spec_canonical_response_valid(r: ChatResponseView) -> bool {
    &&& r.choices.len() >= 1
    &&& (r.usage matches Some(u) ==> u.total_tokens == u.prompt_tokens + u.completion_tokens)
    &&& (spec_first_finish(r) matches Some(f) ==> f == "stop"@ || f == "length"@ || f
        == "tool_calls"@)
}

/// A synthetic Anthropic wire response carrying a canonical response: one
/// text block with the first choice's content, the finish reason written
/// as a stop reason, the usage split into its two counts.
pub open spec fn spec_canonical_to_anthropic(r: ChatResponseView) -> AnthropicResponseView {
    AnthropicResponseView {
        id: r.id,
        model: r.model,
        content: seq![
            AnthropicContentBlockView {
                block_type: "text"@,
                text: match spec_first_content(r) {
                    Some(c) => c,
                    None => Seq::<char>::empty(),
                },
            },
        ],
        stop_reason: match spec_first_finish(r) {
            Some(f) => Some(spec_unmap_finish_reason(f)),
            None => None,
        },
        usage: match r.usage {
            Some(u) => Some(
                AnthropicUsage {
                    input_tokens: u.prompt_tokens,
                    output_tokens: u.completion_tokens,
                },
            ),
            None => None,
        },
    }
}

/// Law: wire round trip.  For every valid canonical response, writing it
/// in a provider's wire shape and reading it back yields an equivalent
/// canonical response — the same content, usage and finish reason — and
/// this regardless of the adapter: the OpenAI-style wire shape is the
/// canonical shape itself, so its round trip is the identity, and the
/// Anthropic-style round trip is proved here.
pub proof fn lemma_anthropic_round_trip(r: ChatResponseView)
    requires
        spec_canonical_response_valid(r),
    ensures
        spec_responses_equivalent(spec_anthropic_to_canonical(spec_canonical_to_anthropic(r)), r),
{
    let w = spec_canonical_to_anthropic(r);
    let d = spec_anthropic_to_canonical(w);
    assert(spec_joined_text(w.content, 0) =~= Seq::<char>::empty());
    assert(spec_joined_text(w.content, 1) =~= w.content[0].text);
    match spec_first_finish(r) {
        Some(f) => {
            reveal_strlit("stop");
            reveal_strlit("length");
            reveal_strlit("tool_calls");
            reveal_strlit("end_turn");
            reveal_strlit("max_tokens");
            reveal_strlit("stop_sequence");
            reveal_strlit("tool_use");
            assert("stop"@.len() == 4);
            assert("length"@.len() == 6);
            assert("tool_calls"@.len() == 10);
            assert("end_turn"@.len() == 8);
            assert("max_tokens"@.len() == 10);
            assert("stop_sequence"@.len() == 13);
            assert("tool_use"@.len() == 8);
            assert("tool_use"@[0] == 't');
            assert("end_turn"@[0] == 'e');
            if f == "stop"@ {
                assert(spec_unmap_finish_reason(f) == "end_turn"@);
                assert(spec_map_stop_reason("end_turn"@) == "stop"@);
            } else if f == "length"@ {
                assert(spec_unmap_finish_reason(f) == "max_tokens"@);
                assert(spec_map_stop_reason("max_tokens"@) == "length"@);
            } else {
                assert(f == "tool_calls"@);
                assert(spec_unmap_finish_reason(f) == "tool_use"@);
                assert(spec_map_stop_reason("tool_use"@) == "tool_calls"@);
            }
        },
        None => {},
    }
    match r.usage {
        Some(u) => {
            assert(d.usage == Some(u));
        },
        None => {},
    }
}

/// Writes a canonical response in the Anthropic wire shape: the synthetic
/// provider response a round-trip check feeds back through the adapter.
pub fn anthropic_wire_of(resp: &ChatResponse) -> (w: AnthropicResponse)
    ensures
        w.deep_view() == spec_canonical_to_anthropic(resp.deep_view()),
{
    let content_text: String = match resp.get_content() {
        Some(s) => String::from_str(s),
        None => String::new(),
    };
    let block = AnthropicContentBlock { block_type: String::from_str("text"), text: content_text };
    let mut content: Vec<AnthropicContentBlock> = Vec::new();
    content.push(block);
    let stop_reason: Option<String> = if resp.choices.len() > 0 {
        match &resp.choices[0].finish_reason {
            Some(f) => Some(unmap_finish_reason(f.as_str())),
            None => None,
        }
    } else {
        None
    };
    let usage: Option<AnthropicUsage> = match &resp.usage {
        Some(u) => Some(AnthropicUsage { input_tokens: u.prompt_tokens, output_tokens: u.completion_tokens }),
        None => None,
    };
    let w = AnthropicResponse {
        id: resp.id.clone(),
        model: resp.model.clone(),
        content,
        stop_reason,
        usage,
    };
    proof {
        assert(w.deep_view() =~~= spec_canonical_to_anthropic(resp.deep_view()));
    }
    w
}

/// Writes one canonical finish reason as an Anthropic stop reason.
fn unmap_finish_reason(s: &str) -> (r: String)
    ensures
        r@ == spec_unmap_finish_reason(s@),
{
    if str_eq(s, "length") {
        String::from_str("max_tokens")
    } else if str_eq(s, "tool_calls") {
        String::from_str("tool_use")
    } else {
        String::from_str("end_turn")
    }
}

} // verus!
