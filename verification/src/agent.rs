//! The agent loop's decisions: how the system prompt is assembled, when the loop
//! stops, what a provider reply leads to, and the bounds its tasks run within.
//! The loop itself (provider calls, tool runs, session writes) is driven from
//! outside, one step at a time.
use vstd::prelude::*;

use crate::config::AgentConfig;
use crate::contracts::types::{ConstraintSet, ExecutionIdentity};
use crate::providers::messages::{LlmResponse, ToolCall};
use crate::session::store::SessionIdentity;
use crate::text::{concat2, concat3, join_strings, joined, texts};

verus! {

/// Why an agent configuration is unusable, if it is.
pub open spec fn agent_config_problem(config: AgentConfig) -> Option<Seq<char>> {
    if config.max_iterations == 0 {
        Some("agent.max_iterations must be greater than 0"@)
    } else if config.memory_window == 0 {
        Some("agent.memory_window must be greater than 0"@)
    } else {
        None
    }
}

/// Checks that the agent may iterate at least once and remembers at least one
/// turn.
pub fn validate_agent_config(config: &AgentConfig) -> (r: Result<(), String>)
    ensures
        match r {
            Ok(()) => agent_config_problem(*config) is None,
            Err(e) => agent_config_problem(*config) == Some(e@),
        },
{
    if config.max_iterations == 0 {
        return Err(String::from_str("agent.max_iterations must be greater than 0"));
    }
    if config.memory_window == 0 {
        return Err(String::from_str("agent.memory_window must be greater than 0"));
    }
    Ok(())
}

/// The reply given when the security policy blocks a request: its findings
/// joined with `; `.
pub fn blocked_request_reply(findings: &Vec<String>) -> (r: String)
    ensures
        r@ == "Request blocked by security policy: "@ + joined(texts(findings@), "; "@),
{
    let list = join_strings(findings, "; ");
    concat2("Request blocked by security policy: ", list.as_str())
}

/// The reply given when the security policy blocks a tool call.
pub fn blocked_tool_reply(tool_name: &str, findings: &Vec<String>) -> (r: String)
    ensures
        r@ == "Tool call '"@ + tool_name@ + "' blocked by security policy: "@ + joined(texts(findings@), "; "@),
{
    let list = join_strings(findings, "; ");
    let head = concat3("Tool call '", tool_name, "' blocked by security policy: ");
    concat2(head.as_str(), list.as_str())
}

/// Each directive as a `- ` bullet.
pub open spec fn bullets(directives: Seq<Seq<char>>) -> Seq<Seq<char>> {
    directives.map_values(|d: Seq<char>| "- "@ + d)
}

/// The guidance appended to the system prompt: nothing without directives, else
/// the bulleted directives and the policy rationale under their headings.
pub open spec fn guidance_text(directives: Seq<Seq<char>>, rationale: Seq<char>) -> Seq<char> {
    if directives.len() == 0 {
        Seq::empty()
    } else {
        "\n\n# Adaptive Guidance\n"@ + joined(bullets(directives), "\n"@) + "\n\n# Policy Rationale\n"@ + rationale
    }
}

/// The adaptive guidance section for a prompt policy's directives.
pub fn adaptive_guidance(directives: &Vec<String>, rationale: &str) -> (r: String)
    ensures
        r@ == guidance_text(texts(directives@), rationale@),
{
    if directives.len() == 0 {
        return String::new();
    }
    let mut lines: Vec<String> = Vec::new();
    let mut i: usize = 0;
    while i < directives.len()
        invariant
            i <= directives@.len(),
            texts(lines@) == bullets(texts(directives@.subrange(0, i as int))),
        decreases directives@.len() - i,
    {
        let ghost before = lines@;
        let line = concat2("- ", directives[i].as_str());
        lines.push(line);
        proof {
            assert(texts(lines@) =~= texts(before).push(line@));
            assert(bullets(texts(directives@.subrange(0, i + 1))) =~= bullets(texts(directives@.subrange(0, i as int))).push(
                "- "@ + directives@[i as int]@,
            ));
        }
        i = i + 1;
    }
    assert(directives@.subrange(0, directives@.len() as int) =~= directives@);
    let body = join_strings(&lines, "\n");
    let head = concat3("\n\n# Adaptive Guidance\n", body.as_str(), "\n\n# Policy Rationale\n");
    concat2(head.as_str(), rationale)
}

/// The system prompt before hooks augment it: the configured prompt followed by
/// the memory targets.
pub fn memory_system_prompt(system_prompt: &str, memory_context: &str) -> (r: String)
    ensures
        r@ == system_prompt@ + "\n\n# Memory Targets\n"@ + memory_context@,
{
    concat3(system_prompt, "\n\n# Memory Targets\n", memory_context)
}

/// The text the loop ends with when it runs out of iterations.
pub open spec fn iteration_limit_text() -> Seq<char> {
    "Agent stopped after reaching the max iteration limit."@
}

/// The text the loop ends with when the final reply has no content.
pub open spec fn empty_reply_text() -> Seq<char> {
    "No response content."@
}

/// What the loop does next.
#[derive(Debug)]
pub enum AgentAction {
    /// Ask the provider for the next reply.
    CallProvider,
    /// Stop and answer with this text (recorded as the assistant's turn).
    Finish(String),
    /// Record the assistant's text, if any, then run these tool calls in order.
    RunTools { assistant_note: Option<String>, calls: Vec<ToolCall> },
}

/// The loop's position: how many provider rounds were started, and the limit.
#[derive(Debug, Clone, Copy)]
pub struct AgentLoop {
    pub iteration: usize,
    pub max_iterations: usize,
}

impl AgentLoop {
    /// A loop that has not started a round yet.
    pub fn new(max_iterations: usize) -> (l: AgentLoop)
        ensures
            l.iteration == 0,
            l.max_iterations == max_iterations,
    {
        AgentLoop { iteration: 0, max_iterations }
    }

    /// Starts a round: past the limit the loop finishes with the limit text,
    /// else the provider is called.
    pub fn start_round(&mut self) -> (a: AgentAction)
        ensures
            final(self).max_iterations == old(self).max_iterations,
            final(self).iteration == if old(self).iteration < usize::MAX {
                old(self).iteration + 1
            } else {
                old(self).iteration as int
            },
            match a {
                AgentAction::Finish(t) => final(self).iteration > final(self).max_iterations && t@
                    == iteration_limit_text(),
                AgentAction::CallProvider => final(self).iteration <= final(self).max_iterations,
                AgentAction::RunTools { .. } => false,
            },
    {
        self.iteration = self.iteration.saturating_add(1);
        if self.iteration > self.max_iterations {
            AgentAction::Finish(String::from_str("Agent stopped after reaching the max iteration limit."))
        } else {
            AgentAction::CallProvider
        }
    }
}

/// What a provider reply leads to: without tool calls the loop finishes with the
/// reply's content (or the empty-reply text); with tool calls it runs them.
pub fn on_provider_reply(reply: LlmResponse) -> (a: AgentAction)
    ensures
        match a {
            AgentAction::Finish(t) => reply.tool_calls@.len() == 0 && t@ == match reply.content {
                Some(c) => c@,
                None => empty_reply_text(),
            },
            AgentAction::RunTools { assistant_note, calls } => reply.tool_calls@.len() > 0 && assistant_note
                == reply.content && calls@ == reply.tool_calls@,
            AgentAction::CallProvider => false,
        },
{
    if reply.tool_calls.len() == 0 {
        let text = match reply.content {
            Some(c) => c,
            None => String::from_str("No response content."),
        };
        AgentAction::Finish(text)
    } else {
        AgentAction::RunTools { assistant_note: reply.content, calls: reply.tool_calls }
    }
}

/// The identity a session's tasks run under, taken from the identity bound to
/// the session.
pub fn execution_identity_for(identity: Option<SessionIdentity>, session_id: &str) -> (r: Result<ExecutionIdentity, String>)
    ensures
        match identity {
            Some(i) => r matches Ok(e) && e.tenant_id == i.tenant_id && e.principal_id == i.principal_id && e.policy_id
                == i.policy_id && e.lease_token == i.lease_token,
            None => r matches Err(msg) && msg@ == "missing session identity for "@ + session_id@,
        },
{
    match identity {
        Some(i) => Ok(
            ExecutionIdentity {
                tenant_id: i.tenant_id,
                principal_id: i.principal_id,
                policy_id: i.policy_id,
                lease_token: i.lease_token,
            },
        ),
        None => Err(concat2("missing session identity for ", session_id)),
    }
}

/// The bounds of one tool task or provider round.
pub open spec fn agent_constraints(c: ConstraintSet, max_retries: u32, max_tokens: u32, profile: Seq<char>) -> bool {
    &&& c.max_cpu_percent == 80
    &&& c.max_memory_mb == 512
    &&& c.timeout_ms == 120_000
    &&& c.max_retries == max_retries
    &&& c.max_tokens == max_tokens
    &&& texts(c.io_allow_paths@) == seq!["."@]
    &&& texts(c.io_deny_paths@) == seq!["/etc"@, "/root"@]
    &&& c.sandbox_profile@ == profile
    &&& !c.requires_human_approval
}

fn agent_bounds(max_retries: u32, max_tokens: u32, profile: &str) -> (c: ConstraintSet)
    ensures
        agent_constraints(c, max_retries, max_tokens, profile@),
{
    let mut allow: Vec<String> = Vec::new();
    allow.push(String::from_str("."));
    let mut deny: Vec<String> = Vec::new();
    deny.push(String::from_str("/etc"));
    deny.push(String::from_str("/root"));
    assert(texts(allow@) =~= seq!["."@]);
    assert(texts(deny@) =~= seq!["/etc"@, "/root"@]);
    ConstraintSet {
        max_cpu_percent: 80,
        max_memory_mb: 512,
        timeout_ms: 120_000,
        max_retries,
        max_tokens,
        io_allow_paths: allow,
        io_deny_paths: deny,
        sandbox_profile: String::from_str(profile),
        requires_human_approval: false,
    }
}

/// The bounds of a tool task the agent runs: two retries, 16000 tokens, the
/// standard sandbox.
pub fn default_constraints() -> (c: ConstraintSet)
    ensures
        agent_constraints(c, 2, 16_000, "standard"@),
{
    agent_bounds(2, 16_000, "standard")
}

/// The bounds of a provider round: one retry, 8000 tokens, the provider sandbox.
pub fn default_provider_constraints() -> (c: ConstraintSet)
    ensures
        agent_constraints(c, 1, 8_000, "provider"@),
{
    agent_bounds(1, 8_000, "provider")
}

/// The identity a bound session identity grants its tasks.
pub open spec fn granted(i: SessionIdentity) -> ExecutionIdentity {
    ExecutionIdentity {
        tenant_id: i.tenant_id,
        principal_id: i.principal_id,
        policy_id: i.policy_id,
        lease_token: i.lease_token,
    }
}

fn copy_identity(i: &ExecutionIdentity) -> (r: ExecutionIdentity)
    ensures
        r == *i,
{
    ExecutionIdentity {
        tenant_id: i.tenant_id.clone(),
        principal_id: i.principal_id.clone(),
        policy_id: i.policy_id.clone(),
        lease_token: i.lease_token.clone(),
    }
}

fn copy_call(c: &ToolCall) -> (r: ToolCall)
    ensures
        r == *c,
{
    ToolCall { id: c.id.clone(), name: c.name.clone(), arguments: c.arguments.clone() }
}

/// Where the handling of one user message stands.
#[derive(Debug)]
pub enum MessageStage {
    /// Nothing has been done yet.
    Start,
    /// Waiting for the request's security screening.
    ScreeningRequest,
    /// Waiting for the user's turn to be recorded in the session.
    RecordingUser,
    /// Waiting for the identity bound to the session.
    ResolvingIdentity,
    /// Waiting for the result of a provider round.
    AwaitingReply { rounds: AgentLoop, identity: ExecutionIdentity },
    /// Waiting for the security screening of `calls[next]`.
    ScreeningTool { rounds: AgentLoop, identity: ExecutionIdentity, calls: Vec<ToolCall>, next: usize },
    /// Waiting for `calls[next]` to run and its output to be recorded.
    RunningTool { rounds: AgentLoop, identity: ExecutionIdentity, calls: Vec<ToolCall>, next: usize },
    /// The last action ends the handling.
    Done,
}

/// What the driver of a message reports.
#[derive(Debug)]
pub enum MessageEvent {
    /// A message arrived.
    Received,
    /// The screening of the request or of the pending tool call, with its findings.
    Screened { blocked: bool, findings: Vec<String> },
    /// The user's turn is recorded.
    UserRecorded,
    /// The identity bound to the session, if any.
    IdentityResolved(Option<SessionIdentity>),
    /// The provider round's reply, or its failure.
    ProviderReplied(Result<LlmResponse, String>),
    /// The tool ran and its output was recorded, or the run failed.
    ToolFinished(Result<(), String>),
}

/// What the driver of a message does next.
#[derive(Debug)]
pub enum MessageAction {
    /// Screen the request text.
    ScreenRequest,
    /// Record the request as the user's turn.
    RecordUser,
    /// Look up the identity bound to the session.
    ResolveIdentity,
    /// Run a provider round under this identity and these bounds.
    CallProvider { identity: ExecutionIdentity, constraints: ConstraintSet },
    /// Add the assistant's note, if any, to the transcript, then screen this call.
    ScreenTool { assistant_note: Option<String>, call: ToolCall },
    /// Run this call under this identity and these bounds and record its output.
    RunTool { call: ToolCall, identity: ExecutionIdentity, constraints: ConstraintSet },
    /// Record this text as the assistant's turn and answer with it.
    Reply(String),
    /// Record this final answer, store the agent state, run the learning
    /// pipeline, and answer with it.
    Complete(String),
    /// Answer with this error.
    Fail(String),
}

/// The loop after one more round was started.
pub open spec fn advanced(l: AgentLoop) -> AgentLoop {
    AgentLoop {
        iteration: if l.iteration < usize::MAX { (l.iteration + 1) as usize } else { l.iteration },
        max_iterations: l.max_iterations,
    }
}

/// A new provider round: past the iteration limit the handling ends with the
/// limit text, else the provider is called under the identity with the provider
/// bounds.
pub open spec fn round_opened(l: AgentLoop, identity: ExecutionIdentity, r: (MessageStage, MessageAction)) -> bool {
    let n = advanced(l);
    if n.iteration > n.max_iterations {
        r.0 is Done && r.1 is Reply && r.1->Reply_0@ == iteration_limit_text()
    } else {
        &&& r.0 == MessageStage::AwaitingReply { rounds: n, identity }
        &&& r.1 is CallProvider
        &&& r.1->CallProvider_identity == identity
        &&& agent_constraints(r.1->CallProvider_constraints, 1, 8_000, "provider"@)
    }
}

/// A blocked request is answered with its refusal and nothing else happens; an
/// allowed one is recorded as the user's turn.
pub open spec fn request_screening(s: MessageStage, e: MessageEvent, r: (MessageStage, MessageAction)) -> bool {
    (s is ScreeningRequest && e is Screened) ==> if e->blocked {
        r.0 is Done && r.1 is Reply && r.1->Reply_0@ == "Request blocked by security policy: "@ + joined(
            texts(e->findings@),
            "; "@,
        )
    } else {
        r.0 is RecordingUser && r.1 is RecordUser
    }
}

/// Screening comes first, the user's turn is recorded only after an allowed
/// screening, and the identity is looked up only once the turn is recorded.
pub open spec fn user_turn_first(s: MessageStage, e: MessageEvent, r: (MessageStage, MessageAction)) -> bool {
    &&& (r.1 is ScreenRequest) == (s is Start && e is Received)
    &&& r.1 is ScreenRequest ==> r.0 is ScreeningRequest
    &&& r.1 is RecordUser ==> (s is ScreeningRequest && e is Screened && !e->blocked)
    &&& (r.1 is ResolveIdentity) == (s is RecordingUser && e is UserRecorded)
    &&& r.1 is ResolveIdentity ==> r.0 is ResolvingIdentity
}

/// Without a bound identity the handling fails (the user's turn stays
/// recorded); with one, the first provider round opens.
pub open spec fn identity_resolution(
    session_id: Seq<char>,
    max_iterations: usize,
    s: MessageStage,
    e: MessageEvent,
    r: (MessageStage, MessageAction),
) -> bool {
    (s is ResolvingIdentity && e is IdentityResolved) ==> match e->IdentityResolved_0 {
        None => r.0 is Done && r.1 is Fail && r.1->Fail_0@ == "missing session identity for "@ + session_id,
        Some(i) => round_opened(AgentLoop { iteration: 0, max_iterations }, granted(i), r),
    }
}

/// A reply without tool calls completes the handling with its content (or the
/// empty-reply text); one with tool calls screens the first call; a failed round
/// fails the handling.
pub open spec fn reply_handling(s: MessageStage, e: MessageEvent, r: (MessageStage, MessageAction)) -> bool {
    (s is AwaitingReply && e is ProviderReplied) ==> match e->ProviderReplied_0 {
        Err(m) => r.0 is Done && r.1 == MessageAction::Fail(m),
        Ok(reply) => if reply.tool_calls@.len() == 0 {
            &&& r.0 is Done
            &&& r.1 is Complete
            &&& r.1->Complete_0@ == match reply.content {
                Some(c) => c@,
                None => empty_reply_text(),
            }
        } else {
            &&& r.0 is ScreeningTool
            &&& r.0->ScreeningTool_rounds == s->AwaitingReply_rounds
            &&& r.0->ScreeningTool_identity == s->AwaitingReply_identity
            &&& r.0->ScreeningTool_calls@ == reply.tool_calls@
            &&& r.0->ScreeningTool_next == 0
            &&& r.1 == MessageAction::ScreenTool { assistant_note: reply.content, call: reply.tool_calls@[0] }
        },
    }
}

/// A blocked tool call is answered with its refusal and nothing else happens;
/// an allowed one runs under the session's identity with the tool bounds.
pub open spec fn tool_screening(s: MessageStage, e: MessageEvent, r: (MessageStage, MessageAction)) -> bool {
    (s is ScreeningTool && e is Screened && s->ScreeningTool_next < s->ScreeningTool_calls@.len()) ==> {
        let call = s->ScreeningTool_calls@[s->ScreeningTool_next as int];
        if e->blocked {
            r.0 is Done && r.1 is Reply && r.1->Reply_0@ == "Tool call '"@ + call.name@
                + "' blocked by security policy: "@ + joined(texts(e->findings@), "; "@)
        } else {
            &&& r.0 is RunningTool
            &&& r.0->RunningTool_rounds == s->ScreeningTool_rounds
            &&& r.0->RunningTool_identity == s->ScreeningTool_identity
            &&& r.0->RunningTool_calls@ == s->ScreeningTool_calls@
            &&& r.0->RunningTool_next == s->ScreeningTool_next
            &&& r.1 is RunTool
            &&& r.1->RunTool_call == call
            &&& r.1->RunTool_identity == s->ScreeningTool_identity
            &&& agent_constraints(r.1->RunTool_constraints, 2, 16_000, "standard"@)
        }
    }
}

/// After a tool ran the next call is screened; after the last one a new
/// provider round opens; a failed run fails the handling.
pub open spec fn tool_finished(s: MessageStage, e: MessageEvent, r: (MessageStage, MessageAction)) -> bool {
    (s is RunningTool && e is ToolFinished && s->RunningTool_next < s->RunningTool_calls@.len()) ==> {
        let next = s->RunningTool_next;
        let calls = s->RunningTool_calls@;
        match e->ToolFinished_0 {
            Err(m) => r.0 is Done && r.1 == MessageAction::Fail(m),
            Ok(()) => if next + 1 < calls.len() {
                &&& r.0 is ScreeningTool
                &&& r.0->ScreeningTool_rounds == s->RunningTool_rounds
                &&& r.0->ScreeningTool_identity == s->RunningTool_identity
                &&& r.0->ScreeningTool_calls@ == calls
                &&& r.0->ScreeningTool_next == next + 1
                &&& r.1 == MessageAction::ScreenTool { assistant_note: None, call: calls[next + 1] }
            } else {
                round_opened(s->RunningTool_rounds, s->RunningTool_identity, r)
            },
        }
    }
}

/// A tool runs only after its screening allowed it, and the provider is called
/// only once an identity was resolved: on opening the handling's first round or
/// after the last tool call of a round ran.
pub open spec fn calls_gated(s: MessageStage, e: MessageEvent, r: (MessageStage, MessageAction)) -> bool {
    &&& r.1 is RunTool ==> (s is ScreeningTool && e is Screened && !e->blocked)
    &&& r.1 is ScreenTool ==> {
        ||| (s is AwaitingReply && e is ProviderReplied && e->ProviderReplied_0 is Ok)
        ||| (s is RunningTool && e is ToolFinished && e->ToolFinished_0 is Ok)
    }
    &&& r.1 is CallProvider ==> {
        ||| (s is ResolvingIdentity && e is IdentityResolved && e->IdentityResolved_0 is Some)
        ||| (s is RunningTool && e is ToolFinished && e->ToolFinished_0 is Ok)
    }
}

/// The stage waits for this event (and, while tool calls are pending, one of
/// them is still due).
pub open spec fn awaited(s: MessageStage, e: MessageEvent) -> bool {
    match s {
        MessageStage::Start => e is Received,
        MessageStage::ScreeningRequest => e is Screened,
        MessageStage::RecordingUser => e is UserRecorded,
        MessageStage::ResolvingIdentity => e is IdentityResolved,
        MessageStage::AwaitingReply { .. } => e is ProviderReplied,
        MessageStage::ScreeningTool { calls, next, .. } => e is Screened && next < calls@.len(),
        MessageStage::RunningTool { calls, next, .. } => e is ToolFinished && next < calls@.len(),
        MessageStage::Done => false,
    }
}

/// Exactly the actions that answer end the handling.
pub open spec fn answers(a: MessageAction) -> bool {
    a is Reply || a is Complete || a is Fail
}

fn open_round(rounds: AgentLoop, identity: ExecutionIdentity) -> (r: (MessageStage, MessageAction))
    ensures
        round_opened(rounds, identity, r),
{
    let mut rounds = rounds;
    match rounds.start_round() {
        AgentAction::Finish(text) => (MessageStage::Done, MessageAction::Reply(text)),
        _ => {
            let id = copy_identity(&identity);
            (
                MessageStage::AwaitingReply { rounds, identity },
                MessageAction::CallProvider { identity: id, constraints: default_provider_constraints() },
            )
        },
    }
}

fn out_of_order() -> (r: (MessageStage, MessageAction))
    ensures
        r.0 is Done,
        r.1 is Fail,
{
    (MessageStage::Done, MessageAction::Fail(String::from_str("message step out of order")))
}

/// One step of handling a user message in a session whose agent allows
/// `max_iterations` provider rounds: from the stage and the driver's event, the
/// next stage and action. An event the stage does not wait for ends the
/// handling with a failure.
pub fn message_step(session_id: &str, max_iterations: usize, stage: MessageStage, event: MessageEvent) -> (r: (
    MessageStage,
    MessageAction,
))
    ensures
        request_screening(stage, event, r),
        user_turn_first(stage, event, r),
        identity_resolution(session_id@, max_iterations, stage, event, r),
        reply_handling(stage, event, r),
        tool_screening(stage, event, r),
        tool_finished(stage, event, r),
        calls_gated(stage, event, r),
        (r.0 is Done) == answers(r.1),
        !awaited(stage, event) ==> (r.0 is Done && r.1 is Fail),
{
    match stage {
        MessageStage::Start => match event {
            MessageEvent::Received => (MessageStage::ScreeningRequest, MessageAction::ScreenRequest),
            _ => out_of_order(),
        },
        MessageStage::ScreeningRequest => match event {
            MessageEvent::Screened { blocked, findings } => {
                if blocked {
                    (MessageStage::Done, MessageAction::Reply(blocked_request_reply(&findings)))
                } else {
                    (MessageStage::RecordingUser, MessageAction::RecordUser)
                }
            },
            _ => out_of_order(),
        },
        MessageStage::RecordingUser => match event {
            MessageEvent::UserRecorded => (MessageStage::ResolvingIdentity, MessageAction::ResolveIdentity),
            _ => out_of_order(),
        },
        MessageStage::ResolvingIdentity => match event {
            MessageEvent::IdentityResolved(found) => match execution_identity_for(found, session_id) {
                Ok(identity) => open_round(AgentLoop::new(max_iterations), identity),
                Err(msg) => (MessageStage::Done, MessageAction::Fail(msg)),
            },
            _ => out_of_order(),
        },
        MessageStage::AwaitingReply { rounds, identity } => match event {
            MessageEvent::ProviderReplied(Err(m)) => (MessageStage::Done, MessageAction::Fail(m)),
            MessageEvent::ProviderReplied(Ok(reply)) => {
                if reply.tool_calls.len() == 0 {
                    let text = match reply.content {
                        Some(c) => c,
                        None => String::from_str("No response content."),
                    };
                    (MessageStage::Done, MessageAction::Complete(text))
                } else {
                    let call = copy_call(&reply.tool_calls[0]);
                    (
                        MessageStage::ScreeningTool { rounds, identity, calls: reply.tool_calls, next: 0 },
                        MessageAction::ScreenTool { assistant_note: reply.content, call },
                    )
                }
            },
            _ => out_of_order(),
        },
        MessageStage::ScreeningTool { rounds, identity, calls, next } => match event {
            MessageEvent::Screened { blocked, findings } => {
                if next >= calls.len() {
                    out_of_order()
                } else if blocked {
                    (MessageStage::Done, MessageAction::Reply(blocked_tool_reply(calls[next].name.as_str(), &findings)))
                } else {
                    let call = copy_call(&calls[next]);
                    let id = copy_identity(&identity);
                    (
                        MessageStage::RunningTool { rounds, identity, calls, next },
                        MessageAction::RunTool { call, identity: id, constraints: default_constraints() },
                    )
                }
            },
            _ => out_of_order(),
        },
        MessageStage::RunningTool { rounds, identity, calls, next } => match event {
            MessageEvent::ToolFinished(Err(m)) => {
                if next >= calls.len() {
                    out_of_order()
                } else {
                    (MessageStage::Done, MessageAction::Fail(m))
                }
            },
            MessageEvent::ToolFinished(Ok(())) => {
                if next >= calls.len() {
                    out_of_order()
                } else if next + 1 < calls.len() {
                    let call = copy_call(&calls[next + 1]);
                    (
                        MessageStage::ScreeningTool { rounds, identity, calls, next: next + 1 },
                        MessageAction::ScreenTool { assistant_note: None, call },
                    )
                } else {
                    open_round(rounds, identity)
                }
            },
            _ => out_of_order(),
        },
        MessageStage::Done => out_of_order(),
    }
}

} // verus!
