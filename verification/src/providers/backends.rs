//! The in-process provider backends: a stub that echoes the last user turn and
//! the adapter that routes a provider through an MCP server.
use vstd::prelude::*;

use crate::providers::messages::{messages_view, ChatMessage, LlmResponse, MessageView};
use crate::text::{concat2, concat3, str_equal};

verus! {

/// The content of the last turn whose role is `user`, if there is one.
pub open spec fn last_user_content(messages: Seq<MessageView>) -> Option<Seq<char>>
    decreases messages.len(),
{
    if messages.len() == 0 {
        None
    } else if messages.last().0 == "user"@ {
        Some(messages.last().1)
    } else {
        last_user_content(messages.drop_last())
    }
}

/// The echo reply `[tag:who:model] content` to the last user turn, if there is
/// one.
pub open spec fn echo_reply(tag: Seq<char>, who: Seq<char>, model: Seq<char>, messages: Seq<MessageView>) -> Option<
    Seq<char>,
> {
    match last_user_content(messages) {
        Some(c) => Some("["@ + tag + ":"@ + who + ":"@ + model + "] "@ + c),
        None => None,
    }
}

/// The index of the last `user` turn.
fn last_user_index(messages: &[ChatMessage]) -> (r: Option<usize>)
    ensures
        match r {
            Some(i) => i < messages@.len() && last_user_content(messages_view(messages@)) == Some(messages@[i as int].content@),
            None => last_user_content(messages_view(messages@)) is None,
        },
{
    let mut i: usize = messages.len();
    assert(messages@.subrange(0, i as int) =~= messages@);
    while i > 0
        invariant
            i <= messages@.len(),
            last_user_content(messages_view(messages@)) == last_user_content(messages_view(messages@.subrange(0, i as int))),
        decreases i,
    {
        let ghost pre = messages_view(messages@.subrange(0, i as int));
        proof {
            assert(pre.drop_last() =~= messages_view(messages@.subrange(0, i - 1)));
            assert(pre.last() == messages@[i - 1]@);
        }
        if str_equal(messages[i - 1].role.as_str(), "user") {
            return Some(i - 1);
        }
        i = i - 1;
    }
    None
}

/// The echo reply built by the in-process backends.
fn echo(tag: &str, who: &str, messages: &[ChatMessage], model: &str) -> (r: LlmResponse)
    ensures
        r.tool_calls@.len() == 0,
        match r.content {
            Some(c) => echo_reply(tag@, who@, model@, messages_view(messages@)) == Some(c@),
            None => echo_reply(tag@, who@, model@, messages_view(messages@)) is None,
        },
{
    let content = match last_user_index(messages) {
        Some(i) => {
            let a = concat3("[", tag, ":");
            let b = concat3(a.as_str(), who, ":");
            let c = concat3(b.as_str(), model, "] ");
            let d = concat2(c.as_str(), messages[i].content.as_str());
            assert(d@ =~= "["@ + tag@ + ":"@ + who@ + ":"@ + model@ + "] "@ + messages@[i as int].content@);
            Some(d)
        },
        None => None,
    };
    LlmResponse { content, tool_calls: Vec::new() }
}

/// A provider that answers by echoing the last user turn, tagged with its name
/// and the model asked for.
#[derive(Debug)]
pub struct StubProvider {
    name: String,
}

impl StubProvider {
    /// The name the provider is registered under.
    pub closed spec fn spec_name(&self) -> Seq<char> {
        self.name@
    }

    /// A stub provider with the given name.
    pub fn new(name: &str) -> (p: StubProvider)
        ensures
            p.spec_name() == name@,
    {
        StubProvider { name: String::from_str(name) }
    }

    /// The provider's name.
    pub fn name(&self) -> (r: &str)
        ensures
            r@ == self.spec_name(),
    {
        self.name.as_str()
    }

    /// `[provider:name:model] content` of the last user turn, or no content when
    /// there is none; never any tool call.
    pub fn chat(&self, messages: &[ChatMessage], model: &str) -> (r: LlmResponse)
        ensures
            r.tool_calls@.len() == 0,
            match r.content {
                Some(c) => echo_reply("provider"@, self.spec_name(), model@, messages_view(messages@)) == Some(c@),
                None => echo_reply("provider"@, self.spec_name(), model@, messages_view(messages@)) is None,
            },
    {
        echo("provider", self.name.as_str(), messages, model)
    }

    /// A copy of this provider.
    pub fn duplicate(&self) -> (p: StubProvider)
        ensures
            p.spec_name() == self.spec_name(),
    {
        StubProvider { name: self.name.clone() }
    }
}

/// A provider served by an MCP server; it is registered as `mcp:<server>`.
#[derive(Debug)]
pub struct McpProviderAdapter {
    name: String,
    server: String,
}

impl McpProviderAdapter {
    /// The MCP server the adapter talks to.
    pub closed spec fn spec_server(&self) -> Seq<char> {
        self.server@
    }

    /// The name the adapter is registered under.
    pub closed spec fn spec_name(&self) -> Seq<char> {
        self.name@
    }

    /// An adapter for `server`, named `mcp:<server>`.
    pub fn new(server: &str) -> (p: McpProviderAdapter)
        ensures
            p.spec_server() == server@,
            p.spec_name() == "mcp:"@ + server@,
    {
        McpProviderAdapter { name: concat2("mcp:", server), server: String::from_str(server) }
    }

    /// The adapter's name.
    pub fn name(&self) -> (r: &str)
        ensures
            r@ == self.spec_name(),
    {
        self.name.as_str()
    }

    /// `[mcp-provider:server:model] content` of the last user turn, or no content
    /// when there is none; never any tool call.
    pub fn chat(&self, messages: &[ChatMessage], model: &str) -> (r: LlmResponse)
        ensures
            r.tool_calls@.len() == 0,
            match r.content {
                Some(c) => echo_reply("mcp-provider"@, self.spec_server(), model@, messages_view(messages@)) == Some(c@),
                None => echo_reply("mcp-provider"@, self.spec_server(), model@, messages_view(messages@)) is None,
            },
    {
        echo("mcp-provider", self.server.as_str(), messages, model)
    }

    /// A copy of this adapter.
    pub fn duplicate(&self) -> (p: McpProviderAdapter)
        ensures
            p.spec_server() == self.spec_server(),
            p.spec_name() == self.spec_name(),
    {
        McpProviderAdapter { name: self.name.clone(), server: self.server.clone() }
    }
}

} // verus!
