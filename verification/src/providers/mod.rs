//! Provider-facing data, prompt normalization, the in-process backends, the
//! provider registry with its tiered model routing, and the prompt cache.
pub mod backends;
pub mod cache;
pub mod chat;
pub mod messages;
pub mod normalize;
pub mod proposal;
pub mod registry;

pub use backends::{McpProviderAdapter, StubProvider};
pub use cache::PromptCache;
pub use messages::{
    ChatMessage, LlmResponse, OptimizationProposal, OptimizationSignal, PromptPolicyOverlay, ProviderChatTrace,
    ProviderProvenance, ProviderRouteDecision, ProviderRouteStage, ToolCall,
};
pub use registry::{ProviderRegistry, RegisteredProvider};
