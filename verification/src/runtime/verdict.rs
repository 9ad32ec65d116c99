use vstd::prelude::*;

use crate::runtime::capability::{
    approval_name, status_name, ApprovalStatus, CapabilityRisk, CapabilityStatus, ForgedMcpToolManifest,
};
use crate::runtime::circuit::outcome_succeeded;
use crate::runtime::guard::two_decimals;
use crate::runtime::kernel::RuntimeKernel;
use crate::runtime::report::{is_word, same_word, ExecutionReport};
use crate::session::signal::WorkflowSignal;
use crate::text::{
    concat2, concat3, contains_str, decimal, decimal_string, has_sub, join_strings, joined, lower,
    lower_str, starts, starts_with_str, str_equal, texts,
};

verus! {

/// The fixed protocol a candidate is evaluated under.
#[derive(Debug, Clone)]
pub struct EvaluationProtocol {
    pub protocol_name: String,
    pub metric_name: String,
    pub time_budget_secs: u64,
    pub mutable_by_agent: bool,
    pub acceptance_checks: Vec<String>,
    pub required_verifiers: Vec<String>,
    pub immutable_artifacts: Vec<String>,
}

/// The verifier's overall verdict on a swarm run.
#[derive(Debug, Clone, Copy, PartialEq, Eq, Structural)]
pub enum VerifierVerdict {
    Pass,
    NeedsIteration,
    Reject,
}

/// One capability checked against the verifier baseline. `health_score` is in
/// thousandths.
#[derive(Debug, Clone)]
pub struct CapabilityRegressionCase {
    pub tool_name: String,
    pub capability_id: String,
    pub version: u32,
    pub status: String,
    pub approval_status: String,
    pub health_score: u32,
    pub passed: bool,
    pub summary: String,
}

/// All capabilities checked against the verifier baseline. The suite's score is
/// `passed_count / cases.len()` (1 when there are no cases).
#[derive(Debug, Clone)]
pub struct CapabilityRegressionSuite {
    pub suite_name: String,
    pub all_passed: bool,
    pub passed_count: usize,
    pub failing_tools: Vec<String>,
    pub cases: Vec<CapabilityRegressionCase>,
    pub summary: String,
}

/// Routing signals a route is judged against.
#[derive(Debug, Clone, Copy)]
pub struct RouteSignals {
    pub forged_tool_coverage: usize,
    pub prefers_cli_execution: bool,
    pub prefers_mcp_execution: bool,
    pub pending_event_count: usize,
}

/// How a route is judged: alignment with the catalog, with the graph signals, and
/// whether the guard let it through.
#[derive(Debug, Clone, Copy, PartialEq, Eq, Structural)]
pub struct RouteAlignment {
    pub aligned_with_catalog: bool,
    pub aligned_with_graph: bool,
    pub guard_ok: bool,
}

/// The workflow signal an execution report sends: a blocked guard blocks the run, a
/// failed execution sends it back to planning, anything else keeps it executing.
pub open spec fn report_signal(r: ExecutionReport) -> WorkflowSignal {
    if same_word(r.guard_decision@, "blocked"@) {
        WorkflowSignal::RuntimeBlocked
    } else if !outcome_succeeded(r) {
        WorkflowSignal::ExecutionFailed
    } else {
        WorkflowSignal::ExecutionStarted
    }
}

/// A capability meets the verifier baseline: active, verified, healthy (0.55 or more),
/// and, when high risk, at least 0.70.
pub open spec fn capability_passes(m: ForgedMcpToolManifest) -> bool {
    &&& m.status == CapabilityStatus::Active
    &&& m.approval_status == ApprovalStatus::Verified
    &&& m.health_score >= 550
    &&& !(m.risk == CapabilityRisk::High && m.health_score < 700)
}

/// How many acceptance criteria occur (ignoring ASCII case) in a text.
pub open spec fn hits_in(text: Seq<char>, criteria: Seq<Seq<char>>) -> nat
    decreases criteria.len(),
{
    if criteria.len() == 0 {
        0
    } else {
        hits_in(text, criteria.drop_last()) + (if has_sub(lower(text), lower(criteria.last())) { 1nat } else { 0nat })
    }
}

/// A task report carries a positive signal: it scored above zero and its output
/// mentions neither `blocked` nor `requires approval` (ignoring ASCII case).
pub open spec fn positive_signal(r: ExecutionReport) -> bool {
    r.outcome_score > 0 && !has_sub(lower(r.output@), "blocked"@) && !has_sub(lower(r.output@), "requires approval"@)
}

/// The outputs of all reports, lowercased and joined by newlines.
pub open spec fn combined_output(reports: Seq<ExecutionReport>) -> Seq<char> {
    joined(reports.map_values(|r: ExecutionReport| lower(r.output@)), "\n"@)
}

/// How a report's route is judged.
pub open spec fn route_alignment(r: ExecutionReport, forged: Seq<Seq<char>>, s: RouteSignals) -> RouteAlignment {
    let catalog = match r.tool_used {
        None => true,
        Some(t) => r.task.role@ != "Execution"@ || forged.contains(t@) || t@ == "cli::forge_mcp_tool"@,
    };
    let graph = match r.tool_used {
        Some(t) => if t@ == "cli::forge_mcp_tool"@ {
            s.forged_tool_coverage == 0 || s.prefers_cli_execution
        } else if starts(t@, "mcp::"@) {
            s.prefers_mcp_execution || s.forged_tool_coverage > 0
        } else {
            s.prefers_cli_execution
        },
        None => true,
    };
    RouteAlignment {
        aligned_with_catalog: catalog,
        aligned_with_graph: graph,
        guard_ok: same_word(r.guard_decision@, "allow"@) || same_word(r.guard_decision@, "provider"@),
    }
}

/// The verifier's decision: any failing capability rejects the run; pending events, low
/// acceptance coverage (under 0.75), or low task or route scores (under 0.60) ask for
/// another iteration; otherwise the run passes.
pub open spec fn verdict_of(
    all_passed: bool,
    pending_events: usize,
    coverage_low: bool,
    task_low: bool,
    route_low: bool,
) -> VerifierVerdict {
    if !all_passed {
        VerifierVerdict::Reject
    } else if pending_events > 0 || coverage_low || task_low || route_low {
        VerifierVerdict::NeedsIteration
    } else {
        VerifierVerdict::Pass
    }
}

/// The verifier's recommended follow-ups.
pub open spec fn recommendations(coverage_below_080: bool, route_below_065: bool, all_passed: bool, pending_events: usize) -> Seq<Seq<char>> {
    let a = if coverage_below_080 { seq!["verifier: expand task evidence for frozen acceptance criteria"@] } else { Seq::empty() };
    let b = if route_below_065 { a.push("verifier: audit route selection against catalog and graph signals"@) } else { a };
    let c = if !all_passed { b.push("verifier: deprecate or roll back failing capabilities"@) } else { b };
    if pending_events > 0 {
        c.push("verifier: drain pending scheduled events before completion"@)
    } else {
        c
    }
}

impl RuntimeKernel {
    /// The workflow signal an execution report sends.
    pub fn workflow_signal_from_execution_report(&self, report: &ExecutionReport) -> (s: WorkflowSignal)
        ensures
            s == report_signal(*report),
    {
        if is_word(report.guard_decision.as_str(), "blocked") {
            return WorkflowSignal::RuntimeBlocked;
        }
        if !crate::runtime::circuit::execution_succeeded(report) {
            return WorkflowSignal::ExecutionFailed;
        }
        WorkflowSignal::ExecutionStarted
    }

    /// The fixed evaluation protocol: an objective score under a 300 s budget that the
    /// agent may not change, with its acceptance checks, required verifiers and frozen
    /// artifacts.
    pub fn evaluation_protocol(&self) -> (p: EvaluationProtocol)
        ensures
            p.protocol_name@ == "immutable-objective-protocol"@,
            p.metric_name@ == "objective_score"@,
            p.time_budget_secs == 300,
            !p.mutable_by_agent,
            texts(p.acceptance_checks@) == seq![
                "acceptance-criteria-coverage"@,
                "task-level-judge"@,
                "route-correctness"@,
                "capability-regression"@,
            ],
            texts(p.required_verifiers@) == seq![
                "verifier-agent"@,
                "task-judge"@,
                "route-auditor"@,
                "capability-regression-suite"@,
            ],
            texts(p.immutable_artifacts@) == seq!["acceptance_criteria"@, "routing_catalog"@, "guard_decision"@],
    {
        let checks = crate::runtime::degrade::string_list(
            &["acceptance-criteria-coverage", "task-level-judge", "route-correctness", "capability-regression"],
        );
        let verifiers = crate::runtime::degrade::string_list(
            &["verifier-agent", "task-judge", "route-auditor", "capability-regression-suite"],
        );
        let artifacts = crate::runtime::degrade::string_list(&["acceptance_criteria", "routing_catalog", "guard_decision"]);
        assert(texts(checks@) =~= seq![
            "acceptance-criteria-coverage"@,
            "task-level-judge"@,
            "route-correctness"@,
            "capability-regression"@,
        ]);
        assert(texts(verifiers@) =~= seq![
            "verifier-agent"@,
            "task-judge"@,
            "route-auditor"@,
            "capability-regression-suite"@,
        ]);
        assert(texts(artifacts@) =~= seq!["acceptance_criteria"@, "routing_catalog"@, "guard_decision"@]);
        EvaluationProtocol {
            protocol_name: String::from_str("immutable-objective-protocol"),
            metric_name: String::from_str("objective_score"),
            time_budget_secs: 300,
            mutable_by_agent: false,
            acceptance_checks: checks,
            required_verifiers: verifiers,
            immutable_artifacts: artifacts,
        }
    }
}

/// How many acceptance criteria occur in a text.
pub fn criterion_hits(text: &str, criteria: &Vec<String>) -> (n: usize)
    ensures
        n == hits_in(text@, texts(criteria@)),
{
    let lowered = lower_str(text);
    let mut n: usize = 0;
    let mut i: usize = 0;
    while i < criteria.len()
        invariant
            i <= criteria@.len(),
            lowered@ == lower(text@),
            n == hits_in(text@, texts(criteria@.subrange(0, i as int))),
            n <= i,
        decreases criteria@.len() - i,
    {
        proof {
            assert(texts(criteria@.subrange(0, i + 1)).drop_last() =~= texts(criteria@.subrange(0, i as int)));
        }
        let c = lower_str(criteria[i].as_str());
        if contains_str(lowered.as_str(), c.as_str()) {
            n = n + 1;
        }
        i = i + 1;
    }
    assert(criteria@.subrange(0, criteria@.len() as int) =~= criteria@);
    n
}

/// Whether a task report carries a positive signal.
pub fn task_positive_signal(report: &ExecutionReport) -> (b: bool)
    ensures
        b == positive_signal(*report),
{
    if report.outcome_score <= 0 {
        return false;
    }
    let output = lower_str(report.output.as_str());
    !contains_str(output.as_str(), "blocked") && !contains_str(output.as_str(), "requires approval")
}

/// How many acceptance criteria occur in the combined output of all reports.
pub fn acceptance_hits(reports: &Vec<ExecutionReport>, criteria: &Vec<String>) -> (n: usize)
    ensures
        n == hits_in(combined_output(reports@), texts(criteria@)),
{
    let mut outputs: Vec<String> = Vec::new();
    let mut i: usize = 0;
    while i < reports.len()
        invariant
            i <= reports@.len(),
            texts(outputs@) == reports@.subrange(0, i as int).map_values(|r: ExecutionReport| lower(r.output@)),
        decreases reports@.len() - i,
    {
        let ghost before = outputs@;
        let low = lower_str(reports[i].output.as_str());
        outputs.push(low);
        proof {
            let f = |r: ExecutionReport| lower(r.output@);
            assert(texts(outputs@) =~= texts(before).push(low@));
            assert(reports@.subrange(0, i + 1).map_values(f) =~= reports@.subrange(0, i as int).map_values(f).push(
                f(reports@[i as int]),
            ));
        }
        i = i + 1;
    }
    assert(reports@.subrange(0, reports@.len() as int) =~= reports@);
    let combined = join_strings(&outputs, "\n");
    proof {
        lemma_lower_idempotent(combined@);
    }
    criterion_hits(combined.as_str(), criteria)
}

proof fn lemma_lower_idempotent(s: Seq<char>)
    ensures
        forall|t: Seq<char>| #[trigger] has_sub(lower(lower(s)), t) == has_sub(lower(s), t),
{
    assert(lower(lower(s)) =~= lower(s));
}

/// How a report's route is judged against the forged catalog and the graph signals.
pub fn judge_route(report: &ExecutionReport, forged_tool_names: &Vec<String>, signals: &RouteSignals) -> (a: RouteAlignment)
    ensures
        a == route_alignment(*report, texts(forged_tool_names@), *signals),
{
    let catalog = match &report.tool_used {
        None => true,
        Some(t) => {
            if !str_equal(report.task.role.as_str(), "Execution") {
                true
            } else {
                let mut found = false;
                let mut i: usize = 0;
                while i < forged_tool_names.len()
                    invariant
                        i <= forged_tool_names@.len(),
                        found == exists|k: int| 0 <= k < i && texts(forged_tool_names@)[k] == t@,
                    decreases forged_tool_names@.len() - i,
                {
                    assert(texts(forged_tool_names@)[i as int] == forged_tool_names@[i as int]@);
                    if str_equal(forged_tool_names[i].as_str(), t.as_str()) {
                        found = true;
                    }
                    i = i + 1;
                }
                proof {
                    if found {
                        let k = choose|k: int| 0 <= k < i && texts(forged_tool_names@)[k] == t@;
                        assert(texts(forged_tool_names@).contains(t@));
                    }
                }
                found || str_equal(t.as_str(), "cli::forge_mcp_tool")
            }
        },
    };
    let graph = match &report.tool_used {
        Some(t) => {
            if str_equal(t.as_str(), "cli::forge_mcp_tool") {
                signals.forged_tool_coverage == 0 || signals.prefers_cli_execution
            } else if starts_with_str(t.as_str(), "mcp::") {
                signals.prefers_mcp_execution || signals.forged_tool_coverage > 0
            } else {
                signals.prefers_cli_execution
            }
        },
        None => true,
    };
    let guard_ok = is_word(report.guard_decision.as_str(), "allow") || is_word(report.guard_decision.as_str(), "provider");
    RouteAlignment { aligned_with_catalog: catalog, aligned_with_graph: graph, guard_ok }
}

/// The verifier's verdict.
pub fn verifier_verdict(all_passed: bool, pending_events: usize, coverage_low: bool, task_low: bool, route_low: bool) -> (v: VerifierVerdict)
    ensures
        v == verdict_of(all_passed, pending_events, coverage_low, task_low, route_low),
{
    if !all_passed {
        VerifierVerdict::Reject
    } else if pending_events > 0 || coverage_low || task_low || route_low {
        VerifierVerdict::NeedsIteration
    } else {
        VerifierVerdict::Pass
    }
}

/// The verifier's recommended follow-ups.
pub fn recommended_actions(coverage_below_080: bool, route_below_065: bool, all_passed: bool, pending_events: usize) -> (r: Vec<String>)
    ensures
        texts(r@) == recommendations(coverage_below_080, route_below_065, all_passed, pending_events),
{
    let mut r: Vec<String> = Vec::new();
    if coverage_below_080 {
        r.push(String::from_str("verifier: expand task evidence for frozen acceptance criteria"));
    }
    if route_below_065 {
        r.push(String::from_str("verifier: audit route selection against catalog and graph signals"));
    }
    if !all_passed {
        r.push(String::from_str("verifier: deprecate or roll back failing capabilities"));
    }
    if pending_events > 0 {
        r.push(String::from_str("verifier: drain pending scheduled events before completion"));
    }
    assert(texts(r@) =~= recommendations(coverage_below_080, route_below_065, all_passed, pending_events));
    r
}

/// Whether a capability meets the verifier baseline.
pub fn capability_case_passed(m: &ForgedMcpToolManifest) -> (b: bool)
    ensures
        b == capability_passes(*m),
{
    m.status == CapabilityStatus::Active && m.approval_status == ApprovalStatus::Verified && m.health_score >= 550
        && !(m.risk == CapabilityRisk::High && m.health_score < 700)
}

impl RuntimeKernel {
    /// Checks every capability against the verifier baseline.
    pub fn run_capability_regression_suite(&self, manifests: &Vec<ForgedMcpToolManifest>) -> (s: CapabilityRegressionSuite)
        ensures
            s.suite_name@ == "capability-regression-suite"@,
            s.cases@.len() == manifests@.len(),
            forall|i: int| 0 <= i < manifests@.len() ==> {
                &&& (#[trigger] s.cases@[i]).passed == capability_passes(manifests@[i])
                &&& s.cases@[i].tool_name@ == manifests@[i].registered_tool_name@
                &&& s.cases@[i].capability_id@ == manifests@[i].capability_id@
                &&& s.cases@[i].version == manifests@[i].version
                &&& s.cases@[i].health_score == manifests@[i].health_score
                &&& s.cases@[i].status@ == status_name(manifests@[i].status)
                &&& s.cases@[i].approval_status@ == approval_name(manifests@[i].approval_status)
                &&& s.cases@[i].summary@ == case_summary(manifests@[i])
            },
            s.passed_count == manifests@.filter(|m: ForgedMcpToolManifest| capability_passes(m)).len(),
            texts(s.failing_tools@) == manifests@.filter(|m: ForgedMcpToolManifest| !capability_passes(m)).map_values(
                |m: ForgedMcpToolManifest| m.registered_tool_name@,
            ),
            s.all_passed == (s.failing_tools@.len() == 0),
            s.all_passed == (forall|i: int| 0 <= i < manifests@.len() ==> capability_passes(#[trigger] manifests@[i])),
            manifests@.len() == 0 ==> s.summary@ == "No forged capabilities were registered, so the regression suite is vacuously green."@,
            manifests@.len() > 0 ==> s.summary@ == decimal(s.passed_count as nat) + " of "@ + decimal(manifests@.len() as nat)
                + " capabilities satisfy the verifier baseline."@,
    {
        let mut cases: Vec<CapabilityRegressionCase> = Vec::new();
        let mut failing: Vec<String> = Vec::new();
        let mut passed_count: usize = 0;
        let ghost pass_pred = |m: ForgedMcpToolManifest| capability_passes(m);
        let ghost fail_pred = |m: ForgedMcpToolManifest| !capability_passes(m);
        let mut i: usize = 0;
        while i < manifests.len()
            invariant
                i <= manifests@.len(),
                cases@.len() == i,
                forall|k: int| 0 <= k < i ==> {
                    &&& (#[trigger] cases@[k]).passed == capability_passes(manifests@[k])
                    &&& cases@[k].tool_name@ == manifests@[k].registered_tool_name@
                    &&& cases@[k].capability_id@ == manifests@[k].capability_id@
                    &&& cases@[k].version == manifests@[k].version
                    &&& cases@[k].health_score == manifests@[k].health_score
                    &&& cases@[k].status@ == status_name(manifests@[k].status)
                    &&& cases@[k].approval_status@ == approval_name(manifests@[k].approval_status)
                    &&& cases@[k].summary@ == case_summary(manifests@[k])
                },
                passed_count == manifests@.subrange(0, i as int).filter(pass_pred).len(),
                passed_count <= i,
                texts(failing@) == manifests@.subrange(0, i as int).filter(fail_pred).map_values(
                    |m: ForgedMcpToolManifest| m.registered_tool_name@,
                ),
                pass_pred == (|m: ForgedMcpToolManifest| capability_passes(m)),
                fail_pred == (|m: ForgedMcpToolManifest| !capability_passes(m)),
            decreases manifests@.len() - i,
        {
            let m = &manifests[i];
            let passed = capability_case_passed(m);
            let status = match m.status {
                CapabilityStatus::PendingVerification => "PendingVerification",
                CapabilityStatus::Active => "Active",
                CapabilityStatus::Deprecated => "Deprecated",
                CapabilityStatus::Retired => "Retired",
            };
            let approval = match m.approval_status {
                ApprovalStatus::Pending => "Pending",
                ApprovalStatus::Verified => "Verified",
                ApprovalStatus::Rejected => "Rejected",
            };
            let summary = if passed {
                String::from_str("capability satisfies executable governance baseline")
            } else {
                regression_summary(status, approval, m.health_score, m.risk)
            };
            cases.push(CapabilityRegressionCase {
                tool_name: m.registered_tool_name.clone(),
                capability_id: m.capability_id.clone(),
                version: m.version,
                status: String::from_str(status),
                approval_status: String::from_str(approval),
                health_score: m.health_score,
                passed,
                summary,
            });
            proof {
                let p = manifests@.subrange(0, i + 1);
                assert(p.drop_last() =~= manifests@.subrange(0, i as int));
                manifests@.subrange(0, i as int).lemma_filter_push(manifests@[i as int], pass_pred);
                manifests@.subrange(0, i as int).lemma_filter_push(manifests@[i as int], fail_pred);
                assert(manifests@.subrange(0, i as int).push(manifests@[i as int]) =~= p);
            }
            if passed {
                passed_count = passed_count + 1;
            } else {
                let ghost before = failing@;
                let name = m.registered_tool_name.clone();
                failing.push(name);
                proof {
                    let g = |m: ForgedMcpToolManifest| m.registered_tool_name@;
                    let prev = manifests@.subrange(0, i as int).filter(fail_pred);
                    assert(manifests@.subrange(0, i + 1).filter(fail_pred) =~= prev.push(manifests@[i as int]));
                    assert(prev.push(manifests@[i as int]).map_values(g) =~= prev.map_values(g).push(g(manifests@[i as int])));
                    assert(texts(failing@) =~= texts(before).push(name@));
                }
            }
            i = i + 1;
        }
        assert(manifests@.subrange(0, manifests@.len() as int) =~= manifests@);
        let all_passed = failing.len() == 0;
        proof {
            if all_passed {
                assert forall|k: int| 0 <= k < manifests@.len() implies capability_passes(#[trigger] manifests@[k]) by {
                    if !capability_passes(manifests@[k]) {
                        assert(manifests@.filter(fail_pred).contains(manifests@[k])) by {
                            manifests@.lemma_filter_contains(fail_pred, k);
                        }
                        assert(manifests@.filter(fail_pred).len() > 0);
                    }
                }
            } else {
                let f = manifests@.filter(fail_pred);
                assert(f.len() > 0);
                assert(fail_pred(f[0]));
                assert(f.contains(f[0]));
                manifests@.lemma_filter_contains_rev(fail_pred, f[0]);
                assert(manifests@.contains(f[0]));
            }
        }
        let summary = if manifests.len() == 0 {
            String::from_str("No forged capabilities were registered, so the regression suite is vacuously green.")
        } else {
            let p = decimal_string(passed_count as u64);
            let n = decimal_string(manifests.len() as u64);
            let head = concat3(p.as_str(), " of ", n.as_str());
            concat2(head.as_str(), " capabilities satisfy the verifier baseline.")
        };
        CapabilityRegressionSuite {
            suite_name: String::from_str("capability-regression-suite"),
            all_passed,
            passed_count,
            failing_tools: failing,
            cases,
            summary,
        }
    }
}

/// The summary a regression case carries: the baseline note when the capability
/// passes, else its status, approval, health and risk.
pub open spec fn case_summary(m: ForgedMcpToolManifest) -> Seq<char> {
    if capability_passes(m) {
        "capability satisfies executable governance baseline"@
    } else {
        regression_summary_text(status_name(m.status), approval_name(m.approval_status), m.health_score, m.risk)
    }
}

/// The summary of a capability that fails the baseline.
pub open spec fn regression_summary_text(status: Seq<char>, approval: Seq<char>, health: u32, risk: CapabilityRisk) -> Seq<char> {
    "status="@ + status + " approval="@ + approval + " health="@ + two_decimals(health) + " risk="@ + (match risk {
        CapabilityRisk::Low => "Low"@,
        CapabilityRisk::Medium => "Medium"@,
        CapabilityRisk::High => "High"@,
    })
}

fn regression_summary(status: &str, approval: &str, health: u32, risk: CapabilityRisk) -> (r: String)
    ensures
        r@ == regression_summary_text(status@, approval@, health, risk),
{
    let hundredths: u64 = ((health as u64) + 5) / 10;
    let whole = decimal_string(hundredths / 100);
    let frac = hundredths % 100;
    let mut h = concat2(whole.as_str(), ".");
    if frac < 10 {
        h.append("0");
    }
    let tail = decimal_string(frac);
    h.append(tail.as_str());
    let a = concat3("status=", status, " approval=");
    let b = concat3(a.as_str(), approval, " health=");
    let c = concat3(b.as_str(), h.as_str(), " risk=");
    let risk_name = match risk {
        CapabilityRisk::Low => "Low",
        CapabilityRisk::Medium => "Medium",
        CapabilityRisk::High => "High",
    };
    concat2(c.as_str(), risk_name)
}

/// A failing capability always rejects the run, and a run passes only when every
/// capability meets the baseline and nothing is pending.
pub proof fn law_verdict(all_passed: bool, pending_events: usize, coverage_low: bool, task_low: bool, route_low: bool)
    ensures
        !all_passed ==> verdict_of(all_passed, pending_events, coverage_low, task_low, route_low) == VerifierVerdict::Reject,
        verdict_of(all_passed, pending_events, coverage_low, task_low, route_low) == VerifierVerdict::Pass ==> all_passed
            && pending_events == 0 && !coverage_low && !task_low && !route_low,
{
}

/// An execution whose guard blocked it always signals a runtime block, and one that
/// did not succeed never signals progress.
pub proof fn law_report_signal(r: ExecutionReport)
    ensures
        same_word(r.guard_decision@, "blocked"@) ==> report_signal(r) == WorkflowSignal::RuntimeBlocked,
        report_signal(r) == WorkflowSignal::ExecutionStarted ==> outcome_succeeded(r),
{
}

/// What a regression case leads to for its capability: a passing one is
/// verified; a failing one is deprecated with its health capped at 350
/// thousandths.
#[derive(Debug, Clone, Copy, PartialEq, Eq, Structural)]
pub enum CapabilityFollowUp {
    Verify,
    Deprecate { health_score: u32 },
}

/// The follow-up for one regression case.
pub open spec fn follow_up_for(c: CapabilityRegressionCase) -> CapabilityFollowUp {
    if c.passed {
        CapabilityFollowUp::Verify
    } else {
        CapabilityFollowUp::Deprecate { health_score: if c.health_score < 350 { c.health_score } else { 350 } }
    }
}

/// The follow-up for each case of a regression suite, in order.
pub fn regression_follow_ups(suite: &CapabilityRegressionSuite) -> (r: Vec<CapabilityFollowUp>)
    ensures
        r@ == suite.cases@.map_values(|c: CapabilityRegressionCase| follow_up_for(c)),
{
    let mut r: Vec<CapabilityFollowUp> = Vec::new();
    let mut i: usize = 0;
    while i < suite.cases.len()
        invariant
            i <= suite.cases@.len(),
            r@ == suite.cases@.subrange(0, i as int).map_values(|c: CapabilityRegressionCase| follow_up_for(c)),
        decreases suite.cases@.len() - i,
    {
        let c = &suite.cases[i];
        let f = if c.passed {
            CapabilityFollowUp::Verify
        } else {
            CapabilityFollowUp::Deprecate { health_score: if c.health_score < 350 { c.health_score } else { 350 } }
        };
        r.push(f);
        i = i + 1;
        assert(r@ =~= suite.cases@.subrange(0, i as int).map_values(|c: CapabilityRegressionCase| follow_up_for(c)));
    }
    assert(suite.cases@.subrange(0, suite.cases@.len() as int) =~= suite.cases@);
    r
}

/// A learning hook to run after an iteration.
#[derive(Debug, Clone)]
pub struct LearningTask {
    pub hook_name: String,
    pub anchor: String,
    pub reason: String,
    pub priority: String,
}

impl RuntimeKernel {
    /// The reflexion task a rolled-back iteration asks for (none when the
    /// iteration was kept), carrying its rollback reason.
    pub fn learn_from_iteration_failure(&self, keep: bool, rollback_reason: Option<String>) -> (r: Option<LearningTask>)
        ensures
            keep ==> r is None,
            !keep ==> (r matches Some(t) && t.hook_name@ == "optimization-reflexion"@ && t.anchor@
                == "iteration-regression"@ && t.priority@ == "high"@ && t.reason@ == match rollback_reason {
                Some(why) => why@,
                None => "iteration failed immutable objective"@,
            }),
    {
        if keep {
            return None;
        }
        let reason = match rollback_reason {
            Some(why) => why,
            None => String::from_str("iteration failed immutable objective"),
        };
        Some(
            LearningTask {
                hook_name: String::from_str("optimization-reflexion"),
                anchor: String::from_str("iteration-regression"),
                reason,
                priority: String::from_str("high"),
            },
        )
    }
}

/// The capability baseline: an inactive or unverified capability, or one with
/// health below 0.55, never passes; a high-risk one needs health of at least
/// 0.70; an active, verified capability with health of 0.70 or more passes
/// whatever its risk, and one with health of 0.55 or more passes unless it is
/// high risk.
pub proof fn law_capability_baseline(m: ForgedMcpToolManifest)
    ensures
        m.status != CapabilityStatus::Active ==> !capability_passes(m),
        m.approval_status != ApprovalStatus::Verified ==> !capability_passes(m),
        m.health_score < 550 ==> !capability_passes(m),
        (m.risk == CapabilityRisk::High && m.health_score < 700) ==> !capability_passes(m),
        (m.status == CapabilityStatus::Active && m.approval_status == ApprovalStatus::Verified && m.health_score >= 700)
            ==> capability_passes(m),
        (m.status == CapabilityStatus::Active && m.approval_status == ApprovalStatus::Verified && m.health_score >= 550
            && m.risk != CapabilityRisk::High) ==> capability_passes(m),
{
}

} // verus!
