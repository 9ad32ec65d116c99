use vstd::prelude::*;

use crate::runtime::capability::ForgedMcpToolManifest;
use crate::runtime::guard::{
    base_guard, guard_view, is_sandbox_policy_for, owned, server_name_for, server_of, GuardDecision, GuardView,
    RuntimeGuardReport,
};
use crate::runtime::kernel::RuntimeKernel;
use crate::runtime::report::{is_word, same_word, ExecutionReport};
use crate::text::{concat2, concat3, contains_str, decimal, decimal_string, has_sub, lower, lower_str};

verus! {

/// Breaker phase.
#[derive(Debug, Clone, Copy, PartialEq, Eq, Structural)]
pub enum CircuitPhase {
    Closed,
    Open,
    HalfOpen,
}

impl Default for CircuitPhase {
    fn default() -> (p: CircuitPhase)
        ensures
            p == CircuitPhase::Closed,
    {
        CircuitPhase::Closed
    }
}

/// The breaker state of one tool or MCP server.
#[derive(Debug, Clone)]
pub struct CircuitState {
    pub scope_key: String,
    pub failure_count: u32,
    pub success_count: u32,
    pub phase: CircuitPhase,
    pub opened_at_ms: Option<u64>,
    pub last_failure_ms: Option<u64>,
    pub last_success_ms: Option<u64>,
    pub cooldown_ms: u64,
    pub threshold: u32,
    pub last_reason: Option<String>,
}

/// The counters, phase and timing of a breaker (everything but its key and reason).
#[derive(Debug, Clone, Copy, PartialEq, Eq, Structural)]
pub struct CircuitCore {
    pub failure_count: u32,
    pub success_count: u32,
    pub phase: CircuitPhase,
    pub opened_at_ms: Option<u64>,
    pub last_failure_ms: Option<u64>,
    pub last_success_ms: Option<u64>,
    pub cooldown_ms: u64,
    pub threshold: u32,
}

/// The counters, phase and timing of a breaker state.
pub open spec fn breaker_core(s: CircuitState) -> CircuitCore {
    CircuitCore {
        failure_count: s.failure_count,
        success_count: s.success_count,
        phase: s.phase,
        opened_at_ms: s.opened_at_ms,
        last_failure_ms: s.last_failure_ms,
        last_success_ms: s.last_success_ms,
        cooldown_ms: s.cooldown_ms,
        threshold: s.threshold,
    }
}

/// `a + 1`, saturating at `u32::MAX`.
pub open spec fn inc(a: u32) -> u32 {
    if a == u32::MAX {
        u32::MAX
    } else {
        (a + 1) as u32
    }
}

/// `a - b`, saturating at 0.
pub open spec fn sat_sub(a: u64, b: u64) -> u64 {
    if a >= b {
        (a - b) as u64
    } else {
        0
    }
}

/// A breaker after one execution outcome: a success closes it and clears the
/// failure streak; a failure extends the streak and opens the breaker when the streak
/// reaches the threshold or when the breaker was half-open.
pub open spec fn next_core(c: CircuitCore, succeeded: bool, now_ms: u64) -> CircuitCore {
    if succeeded {
        CircuitCore {
            success_count: inc(c.success_count),
            failure_count: 0,
            phase: CircuitPhase::Closed,
            last_success_ms: Some(now_ms),
            opened_at_ms: None,
            ..c
        }
    } else {
        let failures = inc(c.failure_count);
        let opens = failures >= c.threshold || c.phase == CircuitPhase::HalfOpen;
        CircuitCore {
            failure_count: failures,
            last_failure_ms: Some(now_ms),
            phase: if opens { CircuitPhase::Open } else { c.phase },
            opened_at_ms: if opens { Some(now_ms) } else { c.opened_at_ms },
            ..c
        }
    }
}

/// How long an open breaker has been open at `now_ms` (0 when its opening time is unknown).
pub open spec fn open_elapsed(c: CircuitCore, now_ms: u64) -> u64 {
    match c.opened_at_ms {
        Some(t) => sat_sub(now_ms, t),
        None => 0,
    }
}

/// A breaker as read back at `now_ms`: an open breaker whose cooldown has passed is
/// half-open.
pub open spec fn refreshed(c: CircuitCore, now_ms: u64) -> CircuitCore {
    if c.phase == CircuitPhase::Open && c.opened_at_ms is Some && open_elapsed(c, now_ms) >= c.cooldown_ms {
        CircuitCore { phase: CircuitPhase::HalfOpen, ..c }
    } else {
        c
    }
}

/// The breaker refuses calls at `now_ms`: it is open and its cooldown has not passed.
pub open spec fn blocks(c: CircuitCore, now_ms: u64) -> bool {
    c.phase == CircuitPhase::Open && open_elapsed(c, now_ms) < c.cooldown_ms
}

/// Why a breaker refuses calls: the remaining cooldown and the failure streak.
pub open spec fn block_text(c: CircuitCore, now_ms: u64) -> Seq<char> {
    "cooldown active for "@ + decimal(sat_sub(c.cooldown_ms, open_elapsed(c, now_ms)) as nat)
        + " ms (failures: "@ + decimal(c.failure_count as nat) + ")"@
}

/// Key of a tool's breaker.
pub open spec fn tool_key(tool_name: Seq<char>) -> Seq<char> {
    "metrics:circuit:tool:"@ + tool_name
}

/// Key of an MCP server's breaker.
pub open spec fn server_key(server_name: Seq<char>) -> Seq<char> {
    "metrics:circuit:server:"@ + server_name
}

/// A guard verdict after consulting the tool's breaker and then its server's breaker.
/// Only an allowed call is affected: an open breaker blocks it, a half-open one leaves
/// it a single attempt.
pub open spec fn with_circuits(
    b: GuardView,
    tool_name: Seq<char>,
    tool_state: Option<CircuitCore>,
    server: Option<Seq<char>>,
    server_state: Option<CircuitCore>,
    now_ms: u64,
) -> GuardView {
    if b.0 != GuardDecision::Allow {
        b
    } else {
        let tkey = tool_key(tool_name);
        let tool_blocked = match tool_state {
            Some(s) => blocks(refreshed(s, now_ms), now_ms),
            None => false,
        };
        if tool_blocked {
            (GuardDecision::Blocked, 0, b.2, "tool circuit open: "@ + block_text(refreshed(tool_state->0, now_ms), now_ms), tkey)
        } else {
            let a: GuardView = match tool_state {
                Some(s) => if refreshed(s, now_ms).phase == CircuitPhase::HalfOpen {
                    (b.0, 1, b.2, "tool circuit is half-open: "@ + b.3, tkey)
                } else {
                    b
                },
                None => b,
            };
            match (server, server_state) {
                (Some(name), Some(s)) => {
                    let r = refreshed(s, now_ms);
                    if blocks(r, now_ms) {
                        (GuardDecision::Blocked, 0, a.2, "mcp circuit open: "@ + block_text(r, now_ms), server_key(name))
                    } else if r.phase == CircuitPhase::HalfOpen {
                        (a.0, if a.1 < 1 { a.1 } else { 1 }, a.2, "mcp circuit is half-open: "@ + a.3, server_key(name))
                    } else {
                        a
                    }
                },
                _ => a,
            }
        }
    }
}

/// An execution counts as a success when it scored above zero and its output
/// mentions neither `failed` nor `blocked` (ignoring ASCII case).
pub open spec fn outcome_succeeded(r: ExecutionReport) -> bool {
    r.outcome_score > 0 && !has_sub(lower(r.output@), "failed"@) && !has_sub(lower(r.output@), "blocked"@)
}

/// The core of a breaker that starts fresh for a tool (`is_mcp == false`) or a server.
pub open spec fn fresh_core(k: RuntimeKernel, is_mcp: bool) -> CircuitCore {
    CircuitCore {
        failure_count: 0,
        success_count: 0,
        phase: CircuitPhase::Closed,
        opened_at_ms: None,
        last_failure_ms: None,
        last_success_ms: None,
        cooldown_ms: if is_mcp { k.mcp.mcp_breaker_cooldown_ms } else { k.mcp.tool_breaker_cooldown_ms },
        threshold: if is_mcp { k.mcp.mcp_breaker_failure_threshold } else { k.mcp.tool_breaker_failure_threshold },
    }
}

/// The breaker that an outcome updates: the stored one as read back at `now_ms`,
/// or a fresh one under `key`.
pub open spec fn updated_core(k: RuntimeKernel, stored: Option<CircuitState>, is_mcp: bool, succeeded: bool, now_ms: u64) -> CircuitCore {
    let start = match stored {
        Some(s) => refreshed(breaker_core(s), now_ms),
        None => fresh_core(k, is_mcp),
    };
    next_core(start, succeeded, now_ms)
}

fn sat_inc(a: u32) -> (r: u32)
    ensures
        r == inc(a),
{
    if a == u32::MAX {
        u32::MAX
    } else {
        a + 1
    }
}

fn sat_minus(a: u64, b: u64) -> (r: u64)
    ensures
        r == sat_sub(a, b),
{
    if a >= b {
        a - b
    } else {
        0
    }
}

impl RuntimeKernel {
    /// Key of a tool's breaker.
    pub fn tool_circuit_key(&self, tool_name: &str) -> (r: String)
        ensures
            r@ == tool_key(tool_name@),
    {
        concat2("metrics:circuit:tool:", tool_name)
    }

    /// Key of an MCP server's breaker.
    pub fn server_circuit_key(&self, server_name: &str) -> (r: String)
        ensures
            r@ == server_key(server_name@),
    {
        concat2("metrics:circuit:server:", server_name)
    }

    /// A closed breaker with no history, using the server settings when `is_mcp`
    /// and the tool settings otherwise.
    pub fn default_circuit_state(&self, scope_key: String, is_mcp: bool) -> (s: CircuitState)
        ensures
            s.scope_key == scope_key,
            breaker_core(s) == fresh_core(*self, is_mcp),
            s.last_reason is None,
    {
        CircuitState {
            scope_key,
            failure_count: 0,
            success_count: 0,
            phase: CircuitPhase::Closed,
            opened_at_ms: None,
            last_failure_ms: None,
            last_success_ms: None,
            cooldown_ms: if is_mcp { self.mcp.mcp_breaker_cooldown_ms } else { self.mcp.tool_breaker_cooldown_ms },
            threshold: if is_mcp {
                self.mcp.mcp_breaker_failure_threshold
            } else {
                self.mcp.tool_breaker_failure_threshold
            },
            last_reason: None,
        }
    }

    /// The breaker after one execution outcome; a failure records `reason`.
    pub fn transition_circuit_state(
        &self,
        state: CircuitState,
        succeeded: bool,
        now_ms: u64,
        reason: String,
    ) -> (s: CircuitState)
        ensures
            s.scope_key == state.scope_key,
            breaker_core(s) == next_core(breaker_core(state), succeeded, now_ms),
            succeeded ==> s.last_reason is Some && s.last_reason->0@ == "execution succeeded and circuit closed"@,
            !succeeded ==> s.last_reason == Some(reason),
    {
        let mut state = state;
        if succeeded {
            state.success_count = sat_inc(state.success_count);
            state.failure_count = 0;
            state.phase = CircuitPhase::Closed;
            state.last_success_ms = Some(now_ms);
            state.opened_at_ms = None;
            state.last_reason = Some(String::from_str("execution succeeded and circuit closed"));
            return state;
        }
        state.failure_count = sat_inc(state.failure_count);
        state.last_failure_ms = Some(now_ms);
        state.last_reason = Some(reason);
        if state.failure_count >= state.threshold {
            state.phase = CircuitPhase::Open;
            state.opened_at_ms = Some(now_ms);
        } else if state.phase == CircuitPhase::HalfOpen {
            state.phase = CircuitPhase::Open;
            state.opened_at_ms = Some(now_ms);
        }
        state
    }

    /// Why the breaker refuses calls at `now_ms`, or `None` when it lets them through.
    pub fn circuit_block_reason(&self, state: &CircuitState, now_ms: u64) -> (r: Option<String>)
        ensures
            r is Some == blocks(breaker_core(*state), now_ms),
            r is Some ==> r->0@ == block_text(breaker_core(*state), now_ms),
    {
        match state.phase {
            CircuitPhase::Closed => None,
            CircuitPhase::HalfOpen => None,
            CircuitPhase::Open => {
                let opened_at = match state.opened_at_ms {
                    Some(t) => t,
                    None => now_ms,
                };
                let elapsed = sat_minus(now_ms, opened_at);
                assert(elapsed == open_elapsed(breaker_core(*state), now_ms));
                if elapsed >= state.cooldown_ms {
                    None
                } else {
                    let remaining = decimal_string(sat_minus(state.cooldown_ms, elapsed));
                    let failures = decimal_string(state.failure_count as u64);
                    let head = concat3("cooldown active for ", remaining.as_str(), " ms (failures: ");
                    Some(concat3(head.as_str(), failures.as_str(), ")"))
                }
            },
        }
    }

    /// A stored breaker as read back at `now_ms`: an open breaker whose cooldown has
    /// passed becomes half-open.
    pub fn refresh_loaded_circuit(&self, state: CircuitState, now_ms: u64) -> (s: CircuitState)
        ensures
            s.scope_key == state.scope_key,
            s.last_reason == state.last_reason,
            breaker_core(s) == refreshed(breaker_core(state), now_ms),
    {
        let mut state = state;
        if state.phase == CircuitPhase::Open {
            if let Some(opened_at) = state.opened_at_ms {
                if sat_minus(now_ms, opened_at) >= state.cooldown_ms {
                    state.phase = CircuitPhase::HalfOpen;
                }
            }
        }
        state
    }

    /// The guard's decision on a tool call, given the stored breakers of the tool and
    /// of its MCP server as read at `now_ms`: an allowed call is blocked by an open
    /// breaker and limited to one attempt by a half-open one.
    pub fn guard_tool_execution_with_state(
        &self,
        actor_id: &str,
        tool_name: &str,
        manifest: Option<&ForgedMcpToolManifest>,
        tool_state: Option<CircuitState>,
        server_state: Option<CircuitState>,
        now_ms: u64,
    ) -> (r: RuntimeGuardReport)
        ensures
            guard_view(r) == with_circuits(
                base_guard(*self, actor_id@, tool_name@, owned(manifest)),
                tool_name@,
                match tool_state {
                    Some(s) => Some(breaker_core(s)),
                    None => None,
                },
                server_of(tool_name@, owned(manifest)),
                match server_state {
                    Some(s) => Some(breaker_core(s)),
                    None => None,
                },
                now_ms,
            ),
            match manifest {
                Some(m) => r.sandbox_policy is Some && is_sandbox_policy_for(*self, tool_name@, *m, r.sandbox_policy->0),
                None => r.sandbox_policy is None,
            },
    {
        let mut report = self.guard_tool_execution(actor_id, tool_name, manifest);
        if report.decision != GuardDecision::Allow {
            return report;
        }
        let tool_key = self.tool_circuit_key(tool_name);
        if let Some(stored) = tool_state {
            let tool_state = self.refresh_loaded_circuit(stored, now_ms);
            if let Some(block_reason) = self.circuit_block_reason(&tool_state, now_ms) {
                report.decision = GuardDecision::Blocked;
                report.attempts_allowed = 0;
                report.reason = concat2("tool circuit open: ", block_reason.as_str());
                report.breaker_key = tool_key;
                return report;
            }
            if tool_state.phase == CircuitPhase::HalfOpen {
                report.attempts_allowed = 1;
                report.reason = concat2("tool circuit is half-open: ", report.reason.as_str());
                report.breaker_key = tool_key;
            }
        }
        if let Some(server_name) = server_name_for(tool_name, manifest) {
            let server_key = self.server_circuit_key(server_name.as_str());
            if let Some(stored) = server_state {
                let server_state = self.refresh_loaded_circuit(stored, now_ms);
                if let Some(block_reason) = self.circuit_block_reason(&server_state, now_ms) {
                    report.decision = GuardDecision::Blocked;
                    report.attempts_allowed = 0;
                    report.reason = concat2("mcp circuit open: ", block_reason.as_str());
                    report.breaker_key = server_key;
                    return report;
                }
                if server_state.phase == CircuitPhase::HalfOpen {
                    report.attempts_allowed = if report.attempts_allowed < 1 { report.attempts_allowed } else { 1 };
                    report.reason = concat2("mcp circuit is half-open: ", report.reason.as_str());
                    report.breaker_key = server_key;
                }
            }
        }
        report
    }
}

/// The reason an outcome leaves on its breakers: the success note, or the
/// failed execution's output.
pub open spec fn outcome_reason(r: ExecutionReport) -> Seq<char> {
    if outcome_succeeded(r) {
        "execution succeeded and circuit closed"@
    } else {
        r.output@
    }
}

/// Whether an execution counts as a success for the breakers.
pub fn execution_succeeded(report: &ExecutionReport) -> (b: bool)
    ensures
        b == outcome_succeeded(*report),
{
    if report.outcome_score <= 0 {
        return false;
    }
    let output = lower_str(report.output.as_str());
    !contains_str(output.as_str(), "failed") && !contains_str(output.as_str(), "blocked")
}

impl RuntimeKernel {
    /// The breakers an allowed tool execution updates, given the stored breakers of the
    /// tool and of its MCP server: the tool's breaker first, then the server's (named by
    /// the report or by the tool name). Executions without a tool, or that the guard did
    /// not allow, update nothing.
    pub fn record_execution_outcome(
        &self,
        report: &ExecutionReport,
        tool_state: Option<CircuitState>,
        server_state: Option<CircuitState>,
        now_ms: u64,
    ) -> (r: Vec<CircuitState>)
        ensures
            (report.tool_used is None || !same_word(report.guard_decision@, "allow"@)) ==> r@.len() == 0,
            (report.tool_used is Some && same_word(report.guard_decision@, "allow"@)) ==> {
                let tool = report.tool_used->0@;
                let server = match report.mcp_server {
                    Some(s) => Some(s@),
                    None => server_of(tool, None),
                };
                &&& r@.len() == (if server is Some { 2int } else { 1int })
                &&& r@[0].scope_key@ == (match tool_state {
                    Some(s) => s.scope_key@,
                    None => tool_key(tool),
                })
                &&& breaker_core(r@[0]) == updated_core(*self, tool_state, false, outcome_succeeded(*report), now_ms)
                &&& r@[0].last_reason matches Some(t) && t@ == outcome_reason(*report)
                &&& server is Some ==> {
                    &&& r@[1].last_reason matches Some(t) && t@ == outcome_reason(*report)
                    &&& r@[1].scope_key@ == (match server_state {
                        Some(s) => s.scope_key@,
                        None => server_key(server->0),
                    })
                    &&& breaker_core(r@[1]) == updated_core(*self, server_state, true, outcome_succeeded(*report), now_ms)
                }
            },
    {
        let mut updates: Vec<CircuitState> = Vec::new();
        let tool_name = match &report.tool_used {
            Some(t) => t,
            None => return updates,
        };
        if !is_word(report.guard_decision.as_str(), "allow") {
            return updates;
        }
        let succeeded = execution_succeeded(report);
        let tool_start = match tool_state {
            Some(s) => self.refresh_loaded_circuit(s, now_ms),
            None => self.default_circuit_state(self.tool_circuit_key(tool_name.as_str()), false),
        };
        let updated_tool = self.transition_circuit_state(tool_start, succeeded, now_ms, report.output.clone());
        updates.push(updated_tool);
        let server_name = match &report.mcp_server {
            Some(s) => Some(s.clone()),
            None => server_name_for(tool_name.as_str(), None),
        };
        if let Some(server_name) = server_name {
            let server_start = match server_state {
                Some(s) => self.refresh_loaded_circuit(s, now_ms),
                None => self.default_circuit_state(self.server_circuit_key(server_name.as_str()), true),
            };
            let updated_server = self.transition_circuit_state(server_start, succeeded, now_ms, report.output.clone());
            updates.push(updated_server);
        }
        updates
    }
}

/// `n` failures in a row, all at `now_ms`.
pub open spec fn after_failures(c: CircuitCore, n: nat, now_ms: u64) -> CircuitCore
    decreases n,
{
    if n == 0 {
        c
    } else {
        next_core(after_failures(c, (n - 1) as nat, now_ms), false, now_ms)
    }
}

proof fn lemma_failures_keep_settings(c: CircuitCore, n: nat, now_ms: u64)
    ensures
        after_failures(c, n, now_ms).threshold == c.threshold,
        after_failures(c, n, now_ms).cooldown_ms == c.cooldown_ms,
    decreases n,
{
    if n > 0 {
        lemma_failures_keep_settings(c, (n - 1) as nat, now_ms);
    }
}

/// A success always leaves the breaker closed, with no failure streak, letting calls
/// through.
pub proof fn law_success_closes(c: CircuitCore, now_ms: u64, later_ms: u64)
    ensures
        next_core(c, true, now_ms).phase == CircuitPhase::Closed,
        next_core(c, true, now_ms).failure_count == 0,
        !blocks(next_core(c, true, later_ms), now_ms),
{
}

/// From a closed breaker with no failures, `n` failures in a row leave a streak of `n`,
/// and the breaker is open exactly when `n` has reached the threshold.
pub proof fn law_failures_open_at_threshold(c: CircuitCore, n: nat, now_ms: u64)
    requires
        c.phase == CircuitPhase::Closed,
        c.failure_count == 0,
        n <= u32::MAX,
    ensures
        after_failures(c, n, now_ms).failure_count == n,
        after_failures(c, n, now_ms).phase == (if n >= c.threshold as nat && n > 0 {
            CircuitPhase::Open
        } else {
            CircuitPhase::Closed
        }),
        n >= c.threshold as nat && n > 0 ==> after_failures(c, n, now_ms).opened_at_ms is Some,
    decreases n,
{
    if n > 0 {
        let m = (n - 1) as nat;
        law_failures_open_at_threshold(c, m, now_ms);
        let prev = after_failures(c, m, now_ms);
        assert(after_failures(c, n, now_ms) == next_core(prev, false, now_ms));
        assert(prev.failure_count == m);
        assert(inc(prev.failure_count) == n);
        assert(prev.threshold == c.threshold) by {
            lemma_failures_keep_settings(c, m, now_ms);
        }
    }
}

/// A breaker that has just opened refuses calls for exactly its cooldown: blocked at
/// every moment before `opened + cooldown`, and read back half-open (and no longer
/// blocking) from then on.
pub proof fn law_cooldown_window(c: CircuitCore, opened_ms: u64, at_ms: u64)
    requires
        c.phase == CircuitPhase::Open,
        c.opened_at_ms == Some(opened_ms),
        opened_ms <= at_ms,
    ensures
        (at_ms - opened_ms) < c.cooldown_ms ==> blocks(refreshed(c, at_ms), at_ms),
        (at_ms - opened_ms) >= c.cooldown_ms ==> refreshed(c, at_ms).phase == CircuitPhase::HalfOpen
            && !blocks(refreshed(c, at_ms), at_ms),
{
}

/// A failure while half-open reopens the breaker at once.
pub proof fn law_half_open_failure_reopens(c: CircuitCore, now_ms: u64)
    requires
        c.phase == CircuitPhase::HalfOpen,
    ensures
        next_core(c, false, now_ms).phase == CircuitPhase::Open,
        next_core(c, false, now_ms).opened_at_ms == Some(now_ms),
{
}

/// Breakers can only make a guard report stricter: a refused call keeps its refusal,
/// an allowed one keeps at most its attempts, and a breaker that is open within its
/// cooldown blocks the call.
pub proof fn law_circuits_only_tighten(
    b: GuardView,
    tool_name: Seq<char>,
    tool_state: Option<CircuitCore>,
    server: Option<Seq<char>>,
    server_state: Option<CircuitCore>,
    now_ms: u64,
)
    ensures
        b.0 != GuardDecision::Allow ==> with_circuits(b, tool_name, tool_state, server, server_state, now_ms) == b,
        with_circuits(b, tool_name, tool_state, server, server_state, now_ms).0 == GuardDecision::Allow
            ==> b.0 == GuardDecision::Allow,
        with_circuits(b, tool_name, tool_state, server, server_state, now_ms).1 <= b.1 || b.1 < 1,
        (b.0 == GuardDecision::Allow && tool_state is Some && blocks(refreshed(tool_state->0, now_ms), now_ms))
            ==> with_circuits(b, tool_name, tool_state, server, server_state, now_ms).0 == GuardDecision::Blocked,
        (b.0 == GuardDecision::Allow && server is Some && server_state is Some && blocks(
            refreshed(server_state->0, now_ms),
            now_ms,
        )) ==> with_circuits(b, tool_name, tool_state, server, server_state, now_ms).0 == GuardDecision::Blocked,
{
}

} // verus!
