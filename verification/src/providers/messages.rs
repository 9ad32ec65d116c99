use vstd::prelude::*;

use crate::text::copy_string;

verus! {

/// A tool invocation requested by a model.
#[derive(Debug, Clone)]
pub struct ToolCall {
    pub id: String,
    pub name: String,
    pub arguments: String,
}

/// A model's reply: optional text and the tool calls it asks for.
#[derive(Debug, Clone)]
pub struct LlmResponse {
    pub content: Option<String>,
    pub tool_calls: Vec<ToolCall>,
}

/// One chat turn.
#[derive(Debug, Clone)]
pub struct ChatMessage {
    pub role: String,
    pub content: String,
}

/// A chat turn seen as its role and content texts.
pub type MessageView = (Seq<char>, Seq<char>);

impl View for ChatMessage {
    type V = MessageView;

    open spec fn view(&self) -> MessageView {
        (self.role@, self.content@)
    }
}

/// The role and content texts of each message, in order.
pub open spec fn messages_view(s: Seq<ChatMessage>) -> Seq<MessageView> {
    s.map_values(|m: ChatMessage| m@)
}

impl ChatMessage {
    /// A message with the given role and content.
    pub fn from_parts(role: &str, content: &str) -> (m: ChatMessage)
        ensures
            m@ == (role@, content@),
    {
        ChatMessage { role: String::from_str(role), content: String::from_str(content) }
    }

    /// A copy of this message.
    pub fn duplicate(&self) -> (m: ChatMessage)
        ensures
            m == *self,
    {
        ChatMessage { role: self.role.clone(), content: self.content.clone() }
    }
}

/// A copy of a message list, element for element.
pub fn duplicate_messages(v: &Vec<ChatMessage>) -> (r: Vec<ChatMessage>)
    ensures
        r@ == v@,
{
    let mut r: Vec<ChatMessage> = Vec::new();
    let mut i: usize = 0;
    while i < v.len()
        invariant
            i <= v.len(),
            r@ == v@.subrange(0, i as int),
        decreases v.len() - i,
    {
        r.push(v[i].duplicate());
        i = i + 1;
        assert(r@ =~= v@.subrange(0, i as int));
    }
    assert(r@ =~= v@);
    r
}

impl ToolCall {
    /// A copy of this call.
    pub fn duplicate(&self) -> (c: ToolCall)
        ensures
            c == *self,
    {
        ToolCall { id: self.id.clone(), name: self.name.clone(), arguments: self.arguments.clone() }
    }
}

impl LlmResponse {
    /// A copy of this response.
    pub fn duplicate(&self) -> (r: LlmResponse)
        ensures
            r.content == self.content,
            r.tool_calls@ == self.tool_calls@,
    {
        let content = match &self.content {
            Some(c) => Some(copy_string(c)),
            None => None,
        };
        let mut calls: Vec<ToolCall> = Vec::new();
        let mut i: usize = 0;
        while i < self.tool_calls.len()
            invariant
                i <= self.tool_calls.len(),
                calls@ == self.tool_calls@.subrange(0, i as int),
            decreases self.tool_calls.len() - i,
        {
            calls.push(self.tool_calls[i].duplicate());
            i = i + 1;
            assert(calls@ =~= self.tool_calls@.subrange(0, i as int));
        }
        assert(calls@ =~= self.tool_calls@);
        proof {
            if self.content is Some {
                assert(content->0@ == self.content->0@);
            }
        }
        LlmResponse { content, tool_calls: calls }
    }
}

/// A strategy signal handed to the optimizer.
#[derive(Debug, Clone)]
pub struct OptimizationSignal {
    pub key: String,
    pub value: String,
}

/// The optimizer's proposal for the next bounded iteration.
#[derive(Debug, Clone)]
pub struct OptimizationProposal {
    pub title: String,
    pub change_target: String,
    pub hypothesis: String,
    pub expected_gain: String,
    pub risk: String,
    pub patch_outline: Vec<String>,
    pub evaluation_focus: String,
}

/// Extra prompt directives and an optional model preference.
#[derive(Debug, Clone, Default)]
pub struct PromptPolicyOverlay {
    pub preferred_model: Option<String>,
    pub directives: Vec<String>,
    pub rationale: String,
}

/// The model tier a prompt is routed to.
#[derive(Debug, Clone, Copy, PartialEq, Eq, Structural)]
pub enum ProviderRouteStage {
    Screening,
    Reasoning,
    Judge,
}

/// Where a prompt is routed and why.
#[derive(Debug, Clone)]
pub struct ProviderRouteDecision {
    pub stage: ProviderRouteStage,
    pub model: String,
    pub rationale: String,
    pub cache_hit: bool,
}

/// A routed chat exchange with the cache key it was stored under.
#[derive(Debug, Clone)]
pub struct ProviderChatTrace {
    pub response: LlmResponse,
    pub route: ProviderRouteDecision,
    pub cache_key: String,
}

/// Where a registered provider comes from and whether it is trusted.
#[derive(Debug, Clone)]
pub struct ProviderProvenance {
    pub provider_name: String,
    pub source: String,
    pub version_ref: String,
    pub trusted: bool,
}

/// A provenance record seen as its name, source and version texts and its trust
/// flag.
pub type ProvenanceView = (Seq<char>, Seq<char>, Seq<char>, bool);

impl View for ProviderProvenance {
    type V = ProvenanceView;

    open spec fn view(&self) -> ProvenanceView {
        (self.provider_name@, self.source@, self.version_ref@, self.trusted)
    }
}

impl ProviderProvenance {
    /// A copy of this record.
    pub fn duplicate(&self) -> (p: ProviderProvenance)
        ensures
            p@ == self@,
    {
        ProviderProvenance {
            provider_name: self.provider_name.clone(),
            source: self.source.clone(),
            version_ref: self.version_ref.clone(),
            trusted: self.trusted,
        }
    }
}

} // verus!
