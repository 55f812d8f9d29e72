//! Identifier and accounting value types shared by every component.

use vstd::prelude::*;

verus! {

/// Identifier of a model: an opaque, immutable string value.
#[derive(Debug, PartialEq, Eq, Hash)]
pub struct ModelId(String);

impl View for ModelId {
    type V = Seq<char>;

    closed spec fn view(&self) -> Seq<char> {
        self.0@
    }
}

impl ModelId {
    pub fn new(id: String) -> (r: Self)
        ensures
            r@ == id@,
    {
        ModelId(id)
    }

    pub fn as_str(&self) -> (r: &str)
        ensures
            r@ == self@,
    {
        self.0.as_str()
    }

    pub fn into_inner(self) -> (r: String)
        ensures
            r@ == self@,
    {
        self.0
    }
}

impl Clone for ModelId {
    fn clone(&self) -> (r: Self)
        ensures
            r == *self,
    {
        ModelId(self.0.clone())
    }
}

/// Identifier of a backend provider: an opaque, immutable string value.
#[derive(Debug, PartialEq, Eq, Hash)]
pub struct ProviderId(String);

impl View for ProviderId {
    type V = Seq<char>;

    closed spec fn view(&self) -> Seq<char> {
        self.0@
    }
}

impl ProviderId {
    pub fn new(id: String) -> (r: Self)
        ensures
            r@ == id@,
    {
        ProviderId(id)
    }

    pub fn as_str(&self) -> (r: &str)
        ensures
            r@ == self@,
    {
        self.0.as_str()
    }

    pub fn into_inner(self) -> (r: String)
        ensures
            r@ == self@,
    {
        self.0
    }
}

impl Clone for ProviderId {
    fn clone(&self) -> (r: Self)
        ensures
            r == *self,
    {
        ProviderId(self.0.clone())
    }
}

/// Identifier used to track one request.
#[derive(Debug, PartialEq, Eq, Hash)]
pub struct RequestId(String);

impl View for RequestId {
    type V = Seq<char>;

    closed spec fn view(&self) -> Seq<char> {
        self.0@
    }
}

/// Relies on `uuid::Uuid::new_v4` and its `Display` form: the hyphenated
/// textual form of a UUID is 36 characters long.
#[verifier::external_body]
fn fresh_uuid_string() -> (r: String)
    ensures
        r@.len() == 36,
{
    uuid::Uuid::new_v4().to_string()
}

impl RequestId {
    /// A fresh random identifier.
    pub fn new() -> (r: Self)
        ensures
            r@.len() == 36,
    {
        RequestId(fresh_uuid_string())
    }

    pub fn from_string(id: String) -> (r: Self)
        ensures
            r@ == id@,
    {
        RequestId(id)
    }

    pub fn as_str(&self) -> (r: &str)
        ensures
            r@ == self@,
    {
        self.0.as_str()
    }
}

impl Default for RequestId {
    fn default() -> (r: Self)
        ensures
            r@.len() == 36,
    {
        RequestId::new()
    }
}

impl Clone for RequestId {
    fn clone(&self) -> (r: Self)
        ensures
            r == *self,
    {
        RequestId(self.0.clone())
    }
}

/// Token accounting reported with a response.
///
/// Invariant: `total_tokens` is always the sum of the two parts, enforced by
/// every constructor.
#[derive(Debug, Clone, Copy, PartialEq, Eq, Structural)]
pub struct TokenUsage {
    pub prompt_tokens: u32,
    pub completion_tokens: u32,
    pub total_tokens: u32,
}

impl DeepView for TokenUsage {
    type V = TokenUsage;

    open spec fn deep_view(&self) -> TokenUsage {
        *self
    }
}

/// The sum invariant that every constructed [`TokenUsage`] satisfies.
pub open spec fn token_usage_consistent(u: TokenUsage) -> bool {
    u.total_tokens == u.prompt_tokens + u.completion_tokens
}

impl TokenUsage {
    pub fn new(prompt_tokens: u32, completion_tokens: u32) -> (r: Self)
        requires
            prompt_tokens + completion_tokens <= u32::MAX,
        ensures
            r.prompt_tokens == prompt_tokens,
            r.completion_tokens == completion_tokens,
            r.total_tokens == prompt_tokens + completion_tokens,
            token_usage_consistent(r),
    {
        TokenUsage {
            prompt_tokens,
            completion_tokens,
            total_tokens: prompt_tokens + completion_tokens,
        }
    }

    /// Rebuilds usage from provider-reported numbers: the reported total is
    /// discarded and recomputed from the parts, so a mismatched total is
    /// normalized rather than trusted.  Counts too large to sum are clamped.
    pub fn normalized(prompt_tokens: u32, completion_tokens: u32, reported_total: u32) -> (r: Self)
        ensures
            r.prompt_tokens == prompt_tokens,
            r.completion_tokens == completion_tokens,
            prompt_tokens + completion_tokens <= u32::MAX ==> r.total_tokens == prompt_tokens
                + completion_tokens,
            prompt_tokens + completion_tokens > u32::MAX ==> r.total_tokens == u32::MAX,
    {
        let total: u32 = if prompt_tokens <= u32::MAX - completion_tokens {
            prompt_tokens + completion_tokens
        } else {
            u32::MAX
        };
        TokenUsage { prompt_tokens, completion_tokens, total_tokens: total }
    }
}

impl Default for TokenUsage {
    fn default() -> (r: Self)
        ensures
            r.prompt_tokens == 0,
            r.completion_tokens == 0,
            r.total_tokens == 0,
            token_usage_consistent(r),
    {
        TokenUsage { prompt_tokens: 0, completion_tokens: 0, total_tokens: 0 }
    }
}

} // verus!

