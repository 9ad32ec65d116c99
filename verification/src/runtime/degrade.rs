use vstd::prelude::*;

use crate::runtime::budget::sat_add;
use crate::runtime::circuit::sat_sub;
use crate::runtime::kernel::RuntimeKernel;
use crate::text::{concat2, concat3, decimal, decimal_string, texts};

verus! {

/// Degraded operating modes.
#[derive(Debug, Clone, Copy, PartialEq, Eq, Structural)]
pub enum DegradeProfileKind {
    Normal,
    ProviderFallback,
    McpConservative,
    ReadOnly,
    QueueThrottle,
    ManualTakeover,
}

/// An active degraded mode and what it still allows.
#[derive(Debug, Clone)]
pub struct DegradeProfile {
    pub profile_id: String,
    pub kind: DegradeProfileKind,
    pub reason: String,
    pub activated_at_ms: u64,
    pub expires_at_ms: Option<u64>,
    pub max_parallel_agents_override: Option<usize>,
    pub allow_provider_calls: bool,
    pub allow_mcp_calls: bool,
    pub read_only_mode: bool,
    pub requires_manual_takeover: bool,
}

/// The steps for getting out of a degraded mode.
#[derive(Debug, Clone)]
pub struct RecoveryPlan {
    pub plan_id: String,
    pub session_id: String,
    pub trace_id: String,
    pub profile: DegradeProfileKind,
    pub trigger: String,
    pub steps: Vec<String>,
    pub cooldown_ms: u64,
    pub auto_recover_enabled: bool,
    pub created_at_ms: u64,
}

/// A switch into a degraded mode, and its recovery once it happens.
#[derive(Debug, Clone)]
pub struct FailoverRecord {
    pub record_id: String,
    pub session_id: String,
    pub trace_id: String,
    pub task_id: String,
    pub capability_id: String,
    pub trigger: String,
    pub profile: DegradeProfileKind,
    pub outcome: String,
    pub recovered: bool,
    pub started_at_ms: u64,
    pub recovered_at_ms: Option<u64>,
    pub mttr_ms: Option<u64>,
    pub notes: Vec<String>,
}

/// An injected fault and the degraded mode it is expected to cause.
#[derive(Debug, Clone)]
pub struct ChaosCase {
    pub case_id: String,
    pub name: String,
    pub fault: String,
    pub expected_profile: DegradeProfileKind,
    pub target: String,
    pub injected_at_ms: u64,
}

/// The label used in a profile's id.
pub open spec fn kind_label(kind: DegradeProfileKind) -> Seq<char> {
    match kind {
        DegradeProfileKind::Normal => "normal"@,
        DegradeProfileKind::ProviderFallback => "provider-fallback"@,
        DegradeProfileKind::McpConservative => "mcp-conservative"@,
        DegradeProfileKind::ReadOnly => "read-only"@,
        DegradeProfileKind::QueueThrottle => "queue-throttle"@,
        DegradeProfileKind::ManualTakeover => "manual"@,
    }
}

/// `max(a, b)`.
pub open spec fn max64(a: u64, b: u64) -> u64 {
    if a < b {
        b
    } else {
        a
    }
}

/// `min(a, b)`.
pub open spec fn min_usize(a: usize, b: usize) -> usize {
    if a < b {
        a
    } else {
        b
    }
}

/// What a profile of `kind` activated at `now_ms` allows: expiry, parallelism
/// override, provider calls, MCP calls, read-only mode, manual takeover.
pub open spec fn profile_settings(k: RuntimeKernel, kind: DegradeProfileKind, now_ms: u64) -> (
    Option<u64>,
    Option<usize>,
    bool,
    bool,
    bool,
    bool,
) {
    match kind {
        DegradeProfileKind::ProviderFallback => (
            Some(sat_add(now_ms, max64(k.mcp.tool_breaker_cooldown_ms, 30_000))),
            Some(min_usize(k.limits.max_parallel_agents, 2)),
            true,
            true,
            false,
            false,
        ),
        DegradeProfileKind::McpConservative => (
            Some(sat_add(now_ms, max64(k.mcp.mcp_breaker_cooldown_ms, 30_000))),
            Some(min_usize(k.limits.max_parallel_agents, 2)),
            true,
            false,
            false,
            false,
        ),
        DegradeProfileKind::ReadOnly => (Some(sat_add(now_ms, 300_000)), Some(1), true, false, true, true),
        DegradeProfileKind::QueueThrottle => (
            Some(sat_add(now_ms, 120_000)),
            Some(if k.limits.max_parallel_agents / 2 < 1 { 1 } else { k.limits.max_parallel_agents / 2 }),
            true,
            true,
            false,
            false,
        ),
        DegradeProfileKind::ManualTakeover => (None, Some(1), true, false, true, true),
        DegradeProfileKind::Normal => (Some(sat_add(now_ms, 60_000)), None, true, true, false, false),
    }
}

/// The settings of a profile, in the order of `profile_settings`.
pub open spec fn settings_of(p: DegradeProfile) -> (Option<u64>, Option<usize>, bool, bool, bool, bool) {
    (
        p.expires_at_ms,
        p.max_parallel_agents_override,
        p.allow_provider_calls,
        p.allow_mcp_calls,
        p.read_only_mode,
        p.requires_manual_takeover,
    )
}

/// The recovery steps for a degraded mode.
pub open spec fn recovery_steps(kind: DegradeProfileKind) -> Seq<Seq<char>> {
    match kind {
        DegradeProfileKind::ProviderFallback => seq![
            "switch provider route to fallback or cached responses"@,
            "keep verifier enabled, but lower exploration"@,
            "probe provider health before returning to normal"@,
        ],
        DegradeProfileKind::McpConservative => seq![
            "pause non-critical MCP tasks"@,
            "allow stable pool only for critical tasks"@,
            "re-open MCP circuit after cooldown and one probe"@,
        ],
        DegradeProfileKind::ReadOnly => seq![
            "freeze mutating operations"@,
            "serve read-only responses from memory/graph"@,
            "require operator approval before write path recovery"@,
        ],
        DegradeProfileKind::QueueThrottle => seq![
            "reduce parallelism"@,
            "drop low-priority tasks"@,
            "resume adaptive pool when queue drains"@,
        ],
        DegradeProfileKind::ManualTakeover => seq![
            "handoff to operator control plane"@,
            "lock risky capabilities"@,
            "resume only after manual approval"@,
        ],
        DegradeProfileKind::Normal => seq!["no recovery action required"@],
    }
}

/// A profile still applies at `now_ms`: it has no expiry or expires later.
pub open spec fn still_active(p: DegradeProfile, now_ms: u64) -> bool {
    match p.expires_at_ms {
        Some(t) => t > now_ms,
        None => true,
    }
}

/// Index of the failover record a recovery closes: among the records not yet
/// recovered, the last one with the latest start.
pub open spec fn is_latest_open(records: Seq<FailoverRecord>, j: int) -> bool {
    &&& 0 <= j < records.len()
    &&& !records[j].recovered
    &&& forall|k: int| 0 <= k < records.len() && !(#[trigger] records[k]).recovered ==> records[k].started_at_ms <= records[j].started_at_ms
    &&& forall|k: int| j < k < records.len() && !(#[trigger] records[k]).recovered ==> records[k].started_at_ms < records[j].started_at_ms
}

/// What a recovery request finds.
pub enum RecoverOutcome {
    /// No degraded mode is active; nothing is written.
    NoActiveProfile,
    /// The active mode is cleared; the closed failover record, if there was an open one.
    Cleared(Option<FailoverRecord>),
}

/// `"{prefix}{a}:{now}"`.
pub open spec fn stamped(prefix: Seq<char>, a: Seq<char>, now_ms: u64) -> Seq<char> {
    prefix + a + ":"@ + decimal(now_ms as nat)
}

fn stamped_string(prefix: &str, a: &str, now_ms: u64) -> (r: String)
    ensures
        r@ == stamped(prefix@, a@, now_ms),
{
    let n = decimal_string(now_ms);
    concat3(concat2(prefix, a).as_str(), ":", n.as_str())
}

/// The given texts as owned strings.
pub fn string_list(items: &[&str]) -> (r: Vec<String>)
    ensures
        r@.len() == items@.len(),
        forall|i: int| 0 <= i < items@.len() ==> (#[trigger] r@[i])@ == items@[i]@,
{
    let mut r: Vec<String> = Vec::new();
    let mut i: usize = 0;
    while i < items.len()
        invariant
            i <= items@.len(),
            r@.len() == i,
            forall|j: int| 0 <= j < i ==> (#[trigger] r@[j])@ == items@[j]@,
        decreases items@.len() - i,
    {
        r.push(String::from_str(items[i]));
        i = i + 1;
    }
    r
}

impl DegradeProfileKind {
    /// The label used in profile ids.
    pub fn label(&self) -> (r: &'static str)
        ensures
            r@ == kind_label(*self),
    {
        match self {
            DegradeProfileKind::Normal => "normal",
            DegradeProfileKind::ProviderFallback => "provider-fallback",
            DegradeProfileKind::McpConservative => "mcp-conservative",
            DegradeProfileKind::ReadOnly => "read-only",
            DegradeProfileKind::QueueThrottle => "queue-throttle",
            DegradeProfileKind::ManualTakeover => "manual",
        }
    }
}

/// The recovery steps for a degraded mode.
pub fn recovery_steps_for(kind: DegradeProfileKind) -> (r: Vec<String>)
    ensures
        texts(r@) == recovery_steps(kind),
{
    let r = match kind {
        DegradeProfileKind::ProviderFallback => string_list(
            &[
                "switch provider route to fallback or cached responses",
                "keep verifier enabled, but lower exploration",
                "probe provider health before returning to normal",
            ],
        ),
        DegradeProfileKind::McpConservative => string_list(
            &[
                "pause non-critical MCP tasks",
                "allow stable pool only for critical tasks",
                "re-open MCP circuit after cooldown and one probe",
            ],
        ),
        DegradeProfileKind::ReadOnly => string_list(
            &[
                "freeze mutating operations",
                "serve read-only responses from memory/graph",
                "require operator approval before write path recovery",
            ],
        ),
        DegradeProfileKind::QueueThrottle => string_list(
            &["reduce parallelism", "drop low-priority tasks", "resume adaptive pool when queue drains"],
        ),
        DegradeProfileKind::ManualTakeover => string_list(
            &[
                "handoff to operator control plane",
                "lock risky capabilities",
                "resume only after manual approval",
            ],
        ),
        DegradeProfileKind::Normal => string_list(&["no recovery action required"]),
    };
    assert(texts(r@) =~= recovery_steps(kind));
    r
}

/// Whether a stored profile still applies at `now_ms`.
pub fn active_degrade_profile(stored: Option<DegradeProfile>, now_ms: u64) -> (r: Option<DegradeProfile>)
    ensures
        r == (match stored {
            Some(p) => if still_active(p, now_ms) { Some(p) } else { None },
            None => None,
        }),
{
    match stored {
        Some(p) => {
            let live = match p.expires_at_ms {
                Some(t) => t > now_ms,
                None => true,
            };
            if live {
                Some(p)
            } else {
                None
            }
        },
        None => None,
    }
}

impl RuntimeKernel {
    /// The degraded mode of `kind`, activated at `now_ms` for `reason`.
    pub fn degrade_profile_from_kind(&self, kind: DegradeProfileKind, reason: &str, now_ms: u64) -> (p: DegradeProfile)
        ensures
            p.profile_id@ == stamped("degrade:"@, kind_label(kind), now_ms),
            p.kind == kind,
            p.reason@ == reason@,
            p.activated_at_ms == now_ms,
            settings_of(p) == profile_settings(*self, kind, now_ms),
    {
        let tool_cd = if self.mcp.tool_breaker_cooldown_ms < 30_000 { 30_000 } else { self.mcp.tool_breaker_cooldown_ms };
        let mcp_cd = if self.mcp.mcp_breaker_cooldown_ms < 30_000 { 30_000 } else { self.mcp.mcp_breaker_cooldown_ms };
        let par = self.limits.max_parallel_agents;
        let two = if par < 2 { par } else { 2 };
        let half = if par / 2 < 1 { 1 } else { par / 2 };
        let (expires, over, provider, mcp, read_only, manual): (Option<u64>, Option<usize>, bool, bool, bool, bool) =
            match kind {
                DegradeProfileKind::ProviderFallback => (Some(now_ms.saturating_add(tool_cd)), Some(two), true, true, false, false),
                DegradeProfileKind::McpConservative => (Some(now_ms.saturating_add(mcp_cd)), Some(two), true, false, false, false),
                DegradeProfileKind::ReadOnly => (Some(now_ms.saturating_add(300_000)), Some(1), true, false, true, true),
                DegradeProfileKind::QueueThrottle => (Some(now_ms.saturating_add(120_000)), Some(half), true, true, false, false),
                DegradeProfileKind::ManualTakeover => (None, Some(1), true, false, true, true),
                DegradeProfileKind::Normal => (Some(now_ms.saturating_add(60_000)), None, true, true, false, false),
            };
        DegradeProfile {
            profile_id: stamped_string("degrade:", kind.label(), now_ms),
            kind,
            reason: String::from_str(reason),
            activated_at_ms: now_ms,
            expires_at_ms: expires,
            max_parallel_agents_override: over,
            allow_provider_calls: provider,
            allow_mcp_calls: mcp,
            read_only_mode: read_only,
            requires_manual_takeover: manual,
        }
    }

    /// Switches a session into a degraded mode: the profile to store as active and the
    /// failover record that opens it.
    pub fn apply_degrade_profile(
        &self,
        session_id: &str,
        trigger: &str,
        kind: DegradeProfileKind,
        reason: &str,
        now_ms: u64,
    ) -> (r: (DegradeProfile, FailoverRecord))
        ensures
            r.0.profile_id@ == stamped("degrade:"@, kind_label(kind), now_ms),
            r.0.kind == kind,
            r.0.reason@ == reason@,
            r.0.activated_at_ms == now_ms,
            settings_of(r.0) == profile_settings(*self, kind, now_ms),
            r.1.record_id@ == stamped("failover:"@, session_id@, now_ms),
            r.1.session_id@ == session_id@,
            r.1.trace_id@ == trigger@,
            r.1.task_id@ == "system"@,
            r.1.capability_id@ == "runtime:degrade"@,
            r.1.trigger@ == trigger@,
            r.1.profile == kind,
            r.1.outcome@ == "degrade_applied"@,
            !r.1.recovered,
            r.1.started_at_ms == now_ms,
            r.1.recovered_at_ms is None,
            r.1.mttr_ms is None,
            texts(r.1.notes@) == seq![reason@],
    {
        let profile = self.degrade_profile_from_kind(kind, reason, now_ms);
        let mut notes: Vec<String> = Vec::new();
        notes.push(String::from_str(reason));
        let record = FailoverRecord {
            record_id: stamped_string("failover:", session_id, now_ms),
            session_id: String::from_str(session_id),
            trace_id: String::from_str(trigger),
            task_id: String::from_str("system"),
            capability_id: String::from_str("runtime:degrade"),
            trigger: String::from_str(trigger),
            profile: kind,
            outcome: String::from_str("degrade_applied"),
            recovered: false,
            started_at_ms: now_ms,
            recovered_at_ms: None,
            mttr_ms: None,
            notes,
        };
        assert(texts(record.notes@) =~= seq![reason@]);
        (profile, record)
    }

    /// The recovery plan for a degraded mode, with the longer of the two breaker
    /// cooldowns.
    pub fn build_recovery_plan(
        &self,
        session_id: &str,
        trigger: &str,
        profile: DegradeProfileKind,
        now_ms: u64,
    ) -> (p: RecoveryPlan)
        ensures
            p.plan_id@ == stamped("recovery-plan:"@, session_id@, now_ms),
            p.session_id@ == session_id@,
            p.trace_id@ == trigger@,
            p.profile == profile,
            p.trigger@ == trigger@,
            texts(p.steps@) == recovery_steps(profile),
            p.cooldown_ms == max64(self.mcp.tool_breaker_cooldown_ms, self.mcp.mcp_breaker_cooldown_ms),
            p.auto_recover_enabled,
            p.created_at_ms == now_ms,
    {
        let cooldown = if self.mcp.tool_breaker_cooldown_ms < self.mcp.mcp_breaker_cooldown_ms {
            self.mcp.mcp_breaker_cooldown_ms
        } else {
            self.mcp.tool_breaker_cooldown_ms
        };
        RecoveryPlan {
            plan_id: stamped_string("recovery-plan:", session_id, now_ms),
            session_id: String::from_str(session_id),
            trace_id: String::from_str(trigger),
            profile,
            trigger: String::from_str(trigger),
            steps: recovery_steps_for(profile),
            cooldown_ms: cooldown,
            auto_recover_enabled: true,
            created_at_ms: now_ms,
        }
    }

    /// Ends a session's degraded mode: when a mode is active, the most recent open
    /// failover record (the last among those with the latest start) is marked
    /// recovered at `now_ms` with its repair time, and `reason` is added to its notes.
    pub fn recover_from_degrade(
        &self,
        active: Option<DegradeProfile>,
        records: Vec<FailoverRecord>,
        reason: &str,
        now_ms: u64,
    ) -> (r: RecoverOutcome)
        ensures
            active is None ==> r is NoActiveProfile,
            active is Some ==> r is Cleared,
            active is Some ==> (r->Cleared_0 is None <==> forall|k: int| 0 <= k < records@.len() ==> (#[trigger] records@[k]).recovered),
            active is Some && r->Cleared_0 is Some ==> exists|j: int| {
                &&& is_latest_open(records@, j)
                &&& {
                    let before = #[trigger] records@[j];
                    let after = r->Cleared_0->0;
                    &&& after.record_id == before.record_id
                    &&& after.session_id == before.session_id
                    &&& after.trigger == before.trigger
                    &&& after.profile == before.profile
                    &&& after.started_at_ms == before.started_at_ms
                    &&& after.recovered
                    &&& after.recovered_at_ms == Some(now_ms)
                    &&& after.mttr_ms == Some(sat_sub(now_ms, before.started_at_ms))
                    &&& after.outcome@ == "recovered"@
                    &&& texts(after.notes@) == texts(before.notes@).push(reason@)
                }
            },
    {
        if active.is_none() {
            return RecoverOutcome::NoActiveProfile;
        }
        let mut best: Option<usize> = None;
        let mut i: usize = 0;
        while i < records.len()
            invariant
                i <= records@.len(),
                match best {
                    Some(b) => {
                        &&& b < i
                        &&& !records@[b as int].recovered
                        &&& forall|k: int| 0 <= k < i && !(#[trigger] records@[k]).recovered ==> records@[k].started_at_ms <= records@[b as int].started_at_ms
                        &&& forall|k: int| b < k < i && !(#[trigger] records@[k]).recovered ==> records@[k].started_at_ms < records@[b as int].started_at_ms
                    },
                    None => forall|k: int| 0 <= k < i ==> (#[trigger] records@[k]).recovered,
                },
            decreases records@.len() - i,
        {
            if !records[i].recovered {
                match best {
                    Some(b) => {
                        if records[i].started_at_ms >= records[b].started_at_ms {
                            best = Some(i);
                        }
                    },
                    None => {
                        best = Some(i);
                    },
                }
            }
            i = i + 1;
        }
        match best {
            None => RecoverOutcome::Cleared(None),
            Some(b) => {
                let before = &records[b];
                let mut notes: Vec<String> = Vec::new();
                let mut n: usize = 0;
                while n < before.notes.len()
                    invariant
                        n <= before.notes@.len(),
                        notes@ == before.notes@.subrange(0, n as int),
                    decreases before.notes@.len() - n,
                {
                    notes.push(before.notes[n].clone());
                    n = n + 1;
                    assert(notes@ =~= before.notes@.subrange(0, n as int));
                }
                assert(notes@ =~= before.notes@);
                notes.push(String::from_str(reason));
                assert(texts(notes@) =~= texts(before.notes@).push(reason@));
                let after = FailoverRecord {
                    record_id: before.record_id.clone(),
                    session_id: before.session_id.clone(),
                    trace_id: before.trace_id.clone(),
                    task_id: before.task_id.clone(),
                    capability_id: before.capability_id.clone(),
                    trigger: before.trigger.clone(),
                    profile: before.profile,
                    outcome: String::from_str("recovered"),
                    recovered: true,
                    started_at_ms: before.started_at_ms,
                    recovered_at_ms: Some(now_ms),
                    mttr_ms: Some(now_ms.saturating_sub(before.started_at_ms)),
                    notes,
                };
                assert(is_latest_open(records@, b as int));
                RecoverOutcome::Cleared(Some(after))
            },
        }
    }

    /// Injects a chaos case into a session: the degraded mode it expects is applied,
    /// triggered as `"chaos:{case}:{injected_at}"`, and a recovery plan is drawn up.
    pub fn run_chaos_case(&self, session_id: &str, case: &ChaosCase, now_ms: u64) -> (r: (
        DegradeProfile,
        FailoverRecord,
        RecoveryPlan,
    ))
        ensures
            r.1.trigger@ == "chaos:"@ + case.case_id@ + ":"@ + decimal(case.injected_at_ms as nat),
            r.1.profile == case.expected_profile,
            r.0.kind == case.expected_profile,
            r.0.reason@ == "chaos injected: "@ + case.name@ + " ("@ + case.fault@ + ")"@,
            settings_of(r.0) == profile_settings(*self, case.expected_profile, now_ms),
            !r.1.recovered,
            r.1.started_at_ms == now_ms,
            r.0.profile_id@ == stamped("degrade:"@, kind_label(case.expected_profile), now_ms),
            r.0.activated_at_ms == now_ms,
            r.1.record_id@ == stamped("failover:"@, session_id@, now_ms),
            r.1.session_id@ == session_id@,
            r.1.trace_id@ == r.1.trigger@,
            r.1.task_id@ == "system"@,
            r.1.capability_id@ == "runtime:degrade"@,
            r.1.outcome@ == "degrade_applied"@,
            r.1.recovered_at_ms is None,
            r.1.mttr_ms is None,
            texts(r.1.notes@) == seq![r.0.reason@],
            r.2.plan_id@ == stamped("recovery-plan:"@, session_id@, now_ms),
            r.2.session_id@ == session_id@,
            r.2.trace_id@ == r.1.trigger@,
            r.2.profile == case.expected_profile,
            r.2.trigger@ == r.1.trigger@,
            texts(r.2.steps@) == recovery_steps(case.expected_profile),
            r.2.cooldown_ms == max64(self.mcp.tool_breaker_cooldown_ms, self.mcp.mcp_breaker_cooldown_ms),
            r.2.auto_recover_enabled,
            r.2.created_at_ms == now_ms,
    {
        let injected = decimal_string(case.injected_at_ms);
        let trigger = concat3(concat2("chaos:", case.case_id.as_str()).as_str(), ":", injected.as_str());
        let reason = concat3(
            concat2("chaos injected: ", case.name.as_str()).as_str(),
            " (",
            concat2(case.fault.as_str(), ")").as_str(),
        );
        let (profile, record) = self.apply_degrade_profile(
            session_id,
            trigger.as_str(),
            case.expected_profile,
            reason.as_str(),
            now_ms,
        );
        let plan = self.build_recovery_plan(session_id, trigger.as_str(), case.expected_profile, now_ms);
        (profile, record, plan)
    }
}

/// Read-only profiles never let MCP calls through, a manual takeover never expires on
/// its own, every mode keeps provider calls open, and every mode except the manual
/// takeover expires after its activation (unless time is at its end).
pub proof fn law_degrade_profiles_restrict(k: RuntimeKernel, kind: DegradeProfileKind, now_ms: u64)
    ensures
        profile_settings(k, kind, now_ms).4 ==> !profile_settings(k, kind, now_ms).3,
        kind == DegradeProfileKind::ManualTakeover <==> profile_settings(k, kind, now_ms).0 is None,
        profile_settings(k, kind, now_ms).2,
        (kind != DegradeProfileKind::ManualTakeover && now_ms < u64::MAX) ==> profile_settings(k, kind, now_ms).0->0 > now_ms,
        (kind == DegradeProfileKind::ReadOnly || kind == DegradeProfileKind::ManualTakeover) ==> profile_settings(k, kind, now_ms).4,
{
}

/// A profile applied at `now_ms` is in force from then until its expiry and not
/// afterwards; a manual takeover stays in force until it is cleared.
pub proof fn law_profile_active_until_expiry(p: DegradeProfile, at_ms: u64)
    ensures
        p.expires_at_ms is None ==> still_active(p, at_ms),
        p.expires_at_ms is Some ==> (still_active(p, at_ms) <==> at_ms < p.expires_at_ms->0),
{
}

} // verus!
