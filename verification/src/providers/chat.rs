//! The steps of a traced chat: the transcript is normalized and routed; a
//! cached answer under the same key is served without calling any provider;
//! otherwise the default provider is called and its answer is cached.
use vstd::prelude::*;

use crate::providers::cache::{after_eviction, lookup, response_view, with_line, LineView, PromptCache, ResponseView};
use crate::providers::messages::{
    messages_view, ChatMessage, LlmResponse, MessageView, ProviderChatTrace, ProviderRouteDecision,
};
use crate::providers::normalize::{messages_cuttable, normalize_messages, normalized};
use crate::providers::registry::{routed, ProviderRegistry};
use crate::text::{concat2, string_of};
use std::collections::hash_map::DefaultHasher;
use std::hash::Hasher;
use vstd::std_specs::hash::DefaultHasherAdditionalSpecFns;
use vstd::string::StringSliceAdditionalSpecFns;

verus! {

/// What a traced chat does once its key is known.
#[derive(Debug)]
pub enum ChatStep {
    /// The cache answered; no provider is called.
    Served(ProviderChatTrace),
    /// Call this provider with the normalized transcript, then finish the chat.
    CallProvider { provider: String, messages: Vec<ChatMessage>, route: ProviderRouteDecision, cache_key: String },
}

/// The preferred model as a plain value.
pub open spec fn preferred_view(preferred: Option<&str>) -> Option<Seq<char>> {
    match preferred {
        Some(m) => Some(m@),
        None => None,
    }
}

impl ProviderRegistry {
    /// The normalized transcript of a chat and where it is routed.
    pub fn prepare_chat(&self, messages: &[ChatMessage], preferred_model: Option<&str>) -> (r: (
        Vec<ChatMessage>,
        ProviderRouteDecision,
    ))
        requires
            messages_cuttable(messages_view(messages@)),
        ensures
            messages_view(r.0@) == normalized(messages_view(messages@)),
            (r.1.stage, r.1.model@, r.1.rationale@) == routed(self@, messages_view(r.0@), preferred_view(preferred_model)),
            !r.1.cache_hit,
    {
        let normalized_messages = normalize_messages(messages);
        let route = self.route_for_messages(normalized_messages.as_slice(), preferred_model);
        (normalized_messages, route)
    }

    /// Serves the chat from the cache when `cache_key` is cached (marking the
    /// route as a cache hit); otherwise asks for a call to the default provider.
    pub fn begin_chat(
        &self,
        cache: &PromptCache,
        messages: Vec<ChatMessage>,
        route: ProviderRouteDecision,
        cache_key: String,
    ) -> (r: ChatStep)
        ensures
            match lookup(cache@, cache_key@) {
                Some(v) => r matches ChatStep::Served(trace) && response_view(trace.response) == v
                    && trace.route.cache_hit && trace.route.stage == route.stage && trace.route.model == route.model
                    && trace.route.rationale == route.rationale && trace.cache_key == cache_key,
                None => r matches ChatStep::CallProvider { provider, messages: m, route: rt, cache_key: k } && provider@
                    == self@.default_provider && m == messages && rt == route && k == cache_key,
            },
    {
        match cache.get(cache_key.as_str()) {
            Some(response) => {
                let mut route = route;
                route.cache_hit = true;
                ChatStep::Served(ProviderChatTrace { response, route, cache_key })
            },
            None => ChatStep::CallProvider {
                provider: String::from_str(self.default_provider()),
                messages,
                route,
                cache_key,
            },
        }
    }
}

/// Caches the provider's answer under the chat's key and returns the trace,
/// marked as no cache hit.
pub fn finish_chat(cache: &mut PromptCache, route: ProviderRouteDecision, cache_key: String, response: LlmResponse) -> (r:
    ProviderChatTrace)
    ensures
        final(cache)@ == with_line(after_eviction(old(cache)@, old(cache).spec_capacity()), cache_key@, response_view(response)),
        final(cache).spec_capacity() == old(cache).spec_capacity(),
        r.response == response,
        !r.route.cache_hit,
        r.route.stage == route.stage,
        r.route.model == route.model,
        r.route.rationale == route.rationale,
        r.cache_key == cache_key,
{
    let stored = response.duplicate();
    let key = cache_key.clone();
    cache.insert(key, stored);
    let mut route = route;
    route.cache_hit = false;
    ProviderChatTrace { response, route, cache_key }
}

/// A chat repeated under the same key after its answer was cached is served
/// from the cache, with that answer.
pub proof fn law_repeated_chat_served_from_cache(lines: Seq<LineView>, capacity: nat, key: Seq<char>, value: ResponseView)
    requires
        crate::providers::cache::keys_unique(lines),
        lines.len() <= if capacity > 0 { capacity } else { 1 },
    ensures
        lookup(with_line(after_eviction(lines, capacity), key, value), key) == Some(value),
{
    crate::providers::cache::law_cache_read_after_write(lines, capacity, key, value);
}

/// A hexadecimal digit, in lower case.
pub open spec fn hex_char(d: nat) -> char {
    if d < 10 {
        ((d + 48) as u32) as char
    } else {
        ((d + 87) as u32) as char
    }
}

/// Lower-case hexadecimal notation of a natural number, as `{:x}` writes it.
pub open spec fn hex(n: nat) -> Seq<char>
    decreases n,
{
    if n < 16 {
        seq![hex_char(n)]
    } else {
        hex(n / 16).push(hex_char(n % 16))
    }
}

fn push_hex(n: u64, out: &mut Vec<char>)
    ensures
        final(out)@ == old(out)@ + hex(n as nat),
    decreases n,
{
    if n >= 16 {
        push_hex(n / 16, out);
    }
    let d = n % 16;
    let c = if d < 10 {
        ((d as u8) + 48) as char
    } else {
        ((d as u8) + 87) as char
    };
    assert(c == hex_char(d as nat));
    out.push(c);
}

/// `n` in lower-case hexadecimal.
pub fn hex_string(n: u64) -> (s: String)
    ensures
        s@ == hex(n as nat),
{
    let mut v: Vec<char> = Vec::new();
    push_hex(n, &mut v);
    assert(v@ =~= hex(n as nat));
    string_of(&v)
}

/// What hashing a text writes: its UTF-8 bytes, then the byte `0xff`.
pub open spec fn text_writes(t: Seq<char>) -> Seq<Seq<u8>> {
    seq![vstd::utf8::encode_utf8(t), seq![0xffu8]]
}

/// What hashing a transcript's roles and contents writes, turn by turn.
pub open spec fn transcript_writes(messages: Seq<MessageView>) -> Seq<Seq<u8>>
    decreases messages.len(),
{
    if messages.len() == 0 {
        Seq::empty()
    } else {
        let m = messages.last();
        transcript_writes(messages.drop_last()) + text_writes(m.0) + text_writes(m.1)
    }
}

/// The cache key of a routed transcript: the model, then each turn's role and
/// content, hashed with `DefaultHasher`, in hexadecimal after `provider-cache:`.
pub open spec fn cache_key_text(messages: Seq<MessageView>, model: Seq<char>) -> Seq<char> {
    "provider-cache:"@ + hex(DefaultHasher::spec_finish(text_writes(model) + transcript_writes(messages)) as nat)
}

fn hash_text(hasher: &mut DefaultHasher, t: &str)
    ensures
        final(hasher)@ == old(hasher)@ + text_writes(t@),
{
    hasher.write(t.as_bytes());
    let mut end: Vec<u8> = Vec::new();
    end.push(0xffu8);
    hasher.write(end.as_slice());
    assert(end@ =~= seq![0xffu8]);
    assert(hasher@ =~= old(hasher)@ + text_writes(t@));
}

/// The prompt cache key of a transcript routed to `model`.
pub fn cache_key(messages: &[ChatMessage], model: &str) -> (r: String)
    ensures
        r@ == cache_key_text(messages_view(messages@), model@),
{
    let mut hasher = DefaultHasher::new();
    hash_text(&mut hasher, model);
    let mut i: usize = 0;
    while i < messages.len()
        invariant
            i <= messages@.len(),
            hasher@ == text_writes(model@) + transcript_writes(messages_view(messages@.subrange(0, i as int))),
        decreases messages@.len() - i,
    {
        let ghost before = hasher@;
        hash_text(&mut hasher, messages[i].role.as_str());
        hash_text(&mut hasher, messages[i].content.as_str());
        proof {
            let prefix = messages_view(messages@.subrange(0, i + 1));
            assert(prefix.drop_last() =~= messages_view(messages@.subrange(0, i as int)));
            assert(prefix.last() == messages@[i as int]@);
            assert(hasher@ =~= text_writes(model@) + transcript_writes(prefix));
        }
        i = i + 1;
    }
    assert(messages@.subrange(0, messages@.len() as int) =~= messages@);
    let h = hasher.finish();
    let digits = hex_string(h);
    concat2("provider-cache:", digits.as_str())
}

impl ProviderRegistry {
    /// Normalizes and routes a chat, keys it, and serves it from the cache when
    /// the key is cached; otherwise asks for a call to the default provider.
    pub fn open_chat(&self, cache: &PromptCache, messages: &[ChatMessage], preferred_model: Option<&str>) -> (r: ChatStep)
        requires
            messages_cuttable(messages_view(messages@)),
        ensures
            ({
                let ms = normalized(messages_view(messages@));
                let route = routed(self@, ms, preferred_view(preferred_model));
                let key = cache_key_text(ms, route.1);
                match lookup(cache@, key) {
                    Some(v) => r is Served && response_view(r->Served_0.response) == v && r->Served_0.route.cache_hit
                        && (r->Served_0.route.stage, r->Served_0.route.model@, r->Served_0.route.rationale@) == route
                        && r->Served_0.cache_key@ == key,
                    None => r is CallProvider && r->provider@ == self@.default_provider && messages_view(r->messages@)
                        == ms && (r->route.stage, r->route.model@, r->route.rationale@) == route && !r->route.cache_hit
                        && r->cache_key@ == key,
                }
            }),
    {
        let (normalized_messages, route) = self.prepare_chat(messages, preferred_model);
        let key = cache_key(normalized_messages.as_slice(), route.model.as_str());
        self.begin_chat(cache, normalized_messages, route, key)
    }
}

} // verus!
