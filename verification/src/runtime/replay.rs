use vstd::prelude::*;

use crate::contracts::types::TaskEnvelope;
use crate::providers::messages::messages_view;
use crate::providers::registry::{routed, ProviderRegistry, RegistryView};
use crate::runtime::execute::{payload_messages, provider_messages};
use crate::text::{
    concat2, concat3, decimal, decimal_string, join_strings, joined, starts, starts_with_str, str_equal, texts,
};

verus! {

/// Which parts of an execution are expected to repeat exactly on replay.
#[derive(Debug, Clone)]
pub struct DeterminismBoundary {
    pub mode: String,
    pub locked_fields: Vec<String>,
    pub non_deterministic_steps: Vec<String>,
    pub external_dependencies: Vec<String>,
}

/// What a recorded execution looked like, for replaying it.
#[derive(Debug, Clone)]
pub struct ReplaySnapshot {
    pub snapshot_id: String,
    pub session_id: String,
    pub trace_id: String,
    pub task_id: String,
    pub capability_id: String,
    pub actor_id: String,
    pub preferred_model: Option<String>,
    pub route_model: Option<String>,
    pub input_digest: String,
    pub parameters_digest: String,
    pub output_digest: String,
    pub boundary: DeterminismBoundary,
    pub created_at_ms: u64,
}

/// A request to replay a snapshot.
#[derive(Debug, Clone)]
pub struct ReplayRunRequest {
    pub snapshot_id: String,
}

/// One way a replay differed from its snapshot.
#[derive(Debug, Clone)]
pub struct ReplayDeviation {
    pub field: String,
    pub expected: String,
    pub actual: String,
    pub severity: String,
    pub explanation: String,
}

/// How a replay compared with its snapshot.
#[derive(Debug, Clone)]
pub struct ReplayRunReport {
    pub snapshot_id: String,
    pub session_id: String,
    pub trace_id: String,
    pub task_id: String,
    pub capability_id: String,
    pub matched: bool,
    pub deterministic_boundary_respected: bool,
    pub original_output_digest: String,
    pub replay_output_digest: String,
    pub route_model_changed: bool,
    pub deviations: Vec<ReplayDeviation>,
    pub notes: Vec<String>,
    pub created_at_ms: u64,
}

/// A deviation seen as its field, expected, actual, severity and explanation texts.
pub open spec fn deviation_view(d: ReplayDeviation) -> (Seq<char>, Seq<char>, Seq<char>, Seq<char>, Seq<char>) {
    (d.field@, d.expected@, d.actual@, d.severity@, d.explanation@)
}

/// The deviations a replay shows: a different output digest (high severity under a
/// strict boundary), then a changed route model.
pub open spec fn replay_deviations(s: ReplaySnapshot, replay_digest: Seq<char>, route_changed: bool) -> Seq<
    (Seq<char>, Seq<char>, Seq<char>, Seq<char>, Seq<char>),
> {
    let strict = s.boundary.mode@ == "strict"@;
    let first = if replay_digest != s.output_digest@ {
        seq![
            (
                "output_digest"@,
                s.output_digest@,
                replay_digest,
                if strict { "high"@ } else { "medium"@ },
                "Runtime replay produced a different output hash for the same snapshot input."@,
            ),
        ]
    } else {
        Seq::empty()
    };
    if route_changed {
        first.push(
            (
                "route_model"@,
                match s.route_model {
                    Some(m) => m@,
                    None => Seq::empty(),
                },
                "changed"@,
                "medium"@,
                "Provider route model differs from the original snapshot route."@,
            ),
        )
    } else {
        first
    }
}

/// Whether a replay stayed within its snapshot's determinism boundary: a strict
/// boundary needs the same output and route, a boundary without external dependencies
/// needs the same output, and one with external dependencies is always respected.
pub open spec fn boundary_respected(s: ReplaySnapshot, matched: bool, route_changed: bool) -> bool {
    if s.boundary.mode@ == "strict"@ {
        matched && !route_changed
    } else if s.boundary.external_dependencies@.len() == 0 {
        matched
    } else {
        true
    }
}

/// The notes a replay report carries about the snapshot's boundary.
pub open spec fn replay_notes(s: ReplaySnapshot) -> Seq<Seq<char>> {
    let ext = texts(s.boundary.external_dependencies@);
    let nd = texts(s.boundary.non_deterministic_steps@);
    let first = if ext.len() > 0 {
        seq!["external dependencies detected: "@ + joined(ext, ", "@)]
    } else {
        Seq::empty()
    };
    if nd.len() > 0 {
        first.push("non-deterministic steps: "@ + joined(nd, ", "@))
    } else {
        first
    }
}

fn deviation(field: &str, expected: String, actual: String, severity: &str, explanation: &str) -> (d: ReplayDeviation)
    ensures
        deviation_view(d) == (field@, expected@, actual@, severity@, explanation@),
{
    ReplayDeviation {
        field: String::from_str(field),
        expected,
        actual,
        severity: String::from_str(severity),
        explanation: String::from_str(explanation),
    }
}

/// Compares a replay's output digest and route with its snapshot.
pub fn replay_run_report(
    snapshot: &ReplaySnapshot,
    replay_output_digest: &str,
    route_model_changed: bool,
    now_ms: u64,
) -> (r: ReplayRunReport)
    ensures
        r.snapshot_id == snapshot.snapshot_id,
        r.session_id == snapshot.session_id,
        r.trace_id == snapshot.trace_id,
        r.task_id == snapshot.task_id,
        r.capability_id == snapshot.capability_id,
        r.matched == (replay_output_digest@ == snapshot.output_digest@),
        r.deterministic_boundary_respected == boundary_respected(*snapshot, r.matched, route_model_changed),
        r.original_output_digest == snapshot.output_digest,
        r.replay_output_digest@ == replay_output_digest@,
        r.route_model_changed == route_model_changed,
        r.deviations@.map_values(|d: ReplayDeviation| deviation_view(d)) == replay_deviations(
            *snapshot,
            replay_output_digest@,
            route_model_changed,
        ),
        texts(r.notes@) == replay_notes(*snapshot),
        r.created_at_ms == now_ms,
{
    let matched = str_equal(replay_output_digest, snapshot.output_digest.as_str());
    let strict = str_equal(snapshot.boundary.mode.as_str(), "strict");
    let mut deviations: Vec<ReplayDeviation> = Vec::new();
    if !matched {
        deviations.push(
            deviation(
                "output_digest",
                snapshot.output_digest.clone(),
                String::from_str(replay_output_digest),
                if strict { "high" } else { "medium" },
                "Runtime replay produced a different output hash for the same snapshot input.",
            ),
        );
    }
    if route_model_changed {
        let expected = match &snapshot.route_model {
            Some(m) => m.clone(),
            None => String::new(),
        };
        deviations.push(
            deviation(
                "route_model",
                expected,
                String::from_str("changed"),
                "medium",
                "Provider route model differs from the original snapshot route.",
            ),
        );
    }
    assert(deviations@.map_values(|d: ReplayDeviation| deviation_view(d)) =~= replay_deviations(
        *snapshot,
        replay_output_digest@,
        route_model_changed,
    ));
    let respected = if strict {
        matched && !route_model_changed
    } else if snapshot.boundary.external_dependencies.len() == 0 {
        matched
    } else {
        true
    };
    let mut notes: Vec<String> = Vec::new();
    if snapshot.boundary.external_dependencies.len() > 0 {
        let joined_deps = join_strings(&snapshot.boundary.external_dependencies, ", ");
        notes.push(concat2("external dependencies detected: ", joined_deps.as_str()));
    }
    if snapshot.boundary.non_deterministic_steps.len() > 0 {
        let joined_steps = join_strings(&snapshot.boundary.non_deterministic_steps, ", ");
        notes.push(concat2("non-deterministic steps: ", joined_steps.as_str()));
    }
    assert(texts(notes@) =~= replay_notes(*snapshot));
    ReplayRunReport {
        snapshot_id: snapshot.snapshot_id.clone(),
        session_id: snapshot.session_id.clone(),
        trace_id: snapshot.trace_id.clone(),
        task_id: snapshot.task_id.clone(),
        capability_id: snapshot.capability_id.clone(),
        matched,
        deterministic_boundary_respected: respected,
        original_output_digest: snapshot.output_digest.clone(),
        replay_output_digest: String::from_str(replay_output_digest),
        route_model_changed,
        deviations,
        notes,
        created_at_ms: now_ms,
    }
}

/// Replaying a deterministic execution that reproduces its output digest and route
/// is within its boundary and shows no deviation; a replay with a different output
/// under a strict boundary is never within it.
pub proof fn law_replay_same_output_matches(s: ReplaySnapshot, replay_digest: Seq<char>, route_changed: bool)
    ensures
        (replay_digest == s.output_digest@ && !route_changed) ==> boundary_respected(s, true, false)
            && replay_deviations(s, replay_digest, route_changed).len() == 0,
        (s.boundary.mode@ == "strict"@ && replay_digest != s.output_digest@) ==> !boundary_respected(s, false, route_changed)
            && replay_deviations(s, replay_digest, route_changed)[0].3 == "high"@,
{
}

/// Under a strict boundary a replay is within it exactly when it shows no
/// deviation: the same output digest and the same route. Without external
/// dependencies a best-effort replay is within its boundary exactly when the
/// output matches; with them the boundary is always respected.
pub proof fn law_strict_boundary_needs_same_output_and_route(
    s: ReplaySnapshot,
    replay_digest: Seq<char>,
    route_changed: bool,
)
    ensures
        s.boundary.mode@ == "strict"@ ==> (boundary_respected(s, replay_digest == s.output_digest@, route_changed)
            <==> replay_deviations(s, replay_digest, route_changed).len() == 0),
        (s.boundary.mode@ == "strict"@ && route_changed) ==> !boundary_respected(s, true, route_changed),
        (s.boundary.mode@ != "strict"@ && s.boundary.external_dependencies@.len() == 0) ==> (boundary_respected(
            s,
            replay_digest == s.output_digest@,
            route_changed,
        ) <==> replay_digest == s.output_digest@),
        (s.boundary.mode@ != "strict"@ && s.boundary.external_dependencies@.len() > 0) ==> boundary_respected(
            s,
            false,
            route_changed,
        ),
        route_changed ==> replay_deviations(s, replay_digest, route_changed).last().0 == "route_model"@,
{
}

/// Whether a replay routes a provider task to a different model than the
/// snapshot recorded: only provider capabilities with a recorded route model are
/// compared, routed with the snapshot's preferred model.
pub open spec fn route_changed(v: RegistryView, envelope: TaskEnvelope, snapshot: ReplaySnapshot) -> bool {
    &&& starts(envelope.capability_id@, "provider:"@)
    &&& snapshot.route_model matches Some(recorded)
    &&& routed(
        v,
        payload_messages(envelope.payload),
        match snapshot.preferred_model {
            Some(m) => Some(m@),
            None => None,
        },
    ).1 != recorded@
}

/// Whether replaying `envelope` now routes to another model than `snapshot`
/// recorded.
pub fn replay_route_changed(providers: &ProviderRegistry, envelope: &TaskEnvelope, snapshot: &ReplaySnapshot) -> (b:
    bool)
    ensures
        b == route_changed(providers@, *envelope, *snapshot),
{
    if !starts_with_str(envelope.capability_id.as_str(), "provider:") {
        return false;
    }
    match &snapshot.route_model {
        None => false,
        Some(recorded) => {
            let messages = provider_messages(&envelope.payload);
            let preferred = match &snapshot.preferred_model {
                Some(m) => Some(m.as_str()),
                None => None,
            };
            let route = providers.route_for_messages(messages.as_slice(), preferred);
            proof {
                assert(messages_view(messages@) == payload_messages(envelope.payload));
            }
            !str_equal(route.model.as_str(), recorded.as_str())
        },
    }
}

/// A trace or task id marked as a replay run at `now_ms`: `id:replay:now_ms`.
pub fn replay_id(id: &str, now_ms: u64) -> (r: String)
    ensures
        r@ == id@ + ":replay:"@ + decimal(now_ms as nat),
{
    let n = decimal_string(now_ms);
    concat3(id, ":replay:", n.as_str())
}

/// What is kept of a replay run for later analysis.
#[derive(Debug, Clone)]
pub struct ReplayAnalysisReport {
    pub snapshot_id: String,
    pub session_id: String,
    pub trace_id: String,
    pub replay_output_digest: String,
    pub matched: bool,
    pub deterministic_boundary_respected: bool,
    pub deviations: Vec<ReplayDeviation>,
    pub notes: Vec<String>,
    pub created_at_ms: u64,
}

/// The analysis kept of a replay run: its ids, digest, verdicts, deviations,
/// notes and time.
pub fn replay_analysis(report: ReplayRunReport) -> (a: ReplayAnalysisReport)
    ensures
        a.snapshot_id == report.snapshot_id,
        a.session_id == report.session_id,
        a.trace_id == report.trace_id,
        a.replay_output_digest == report.replay_output_digest,
        a.matched == report.matched,
        a.deterministic_boundary_respected == report.deterministic_boundary_respected,
        a.deviations == report.deviations,
        a.notes == report.notes,
        a.created_at_ms == report.created_at_ms,
{
    ReplayAnalysisReport {
        snapshot_id: report.snapshot_id,
        session_id: report.session_id,
        trace_id: report.trace_id,
        replay_output_digest: report.replay_output_digest,
        matched: report.matched,
        deterministic_boundary_respected: report.deterministic_boundary_respected,
        deviations: report.deviations,
        notes: report.notes,
        created_at_ms: report.created_at_ms,
    }
}

/// The key prefix replay analyses are listed under: all of them, or those of
/// one snapshot.
pub fn replay_analysis_prefix(snapshot_id: Option<&str>) -> (r: String)
    ensures
        r@ == match snapshot_id {
            Some(id) => "replay:analysis:"@ + id@ + ":"@,
            None => "replay:analysis:"@,
        },
{
    match snapshot_id {
        Some(id) => concat3("replay:analysis:", id, ":"),
        None => String::from_str("replay:analysis:"),
    }
}

/// Report `i` comes before report `j` in time order: earlier, or at the same
/// time and listed first.
pub open spec fn earlier(reports: Seq<ReplayAnalysisReport>, i: int, j: int) -> bool {
    reports[i].created_at_ms < reports[j].created_at_ms || (reports[i].created_at_ms == reports[j].created_at_ms
        && i < j)
}

/// The positions of the reports of `session`, in time order (stable for
/// reports made at the same time).
pub fn session_replay_order(reports: &Vec<ReplayAnalysisReport>, session_id: &str) -> (r: Vec<usize>)
    ensures
        forall|a: int, b: int| 0 <= a < b < r@.len() ==> earlier(reports@, #[trigger] r@[a] as int, #[trigger] r@[b] as int),
        forall|i: int| #[trigger] r@.contains(i as usize) && 0 <= i <= usize::MAX <==> (0 <= i < reports@.len()
            && reports@[i].session_id@ == session_id@),
{
    let mut order: Vec<usize> = Vec::new();
    let mut i: usize = 0;
    while i < reports.len()
        invariant
            i <= reports@.len(),
            forall|a: int| 0 <= a < order@.len() ==> (#[trigger] order@[a]) < i,
            forall|a: int, b: int| 0 <= a < b < order@.len() ==> earlier(reports@, #[trigger] order@[a] as int, #[trigger] order@[b] as int),
            forall|k: int| #[trigger] order@.contains(k as usize) && 0 <= k <= usize::MAX <==> (0 <= k < i
                && reports@[k].session_id@ == session_id@),
        decreases reports@.len() - i,
    {
        if str_equal(reports[i].session_id.as_str(), session_id) {
            let key = reports[i].created_at_ms;
            let mut p: usize = order.len();
            while p > 0 && reports[order[p - 1]].created_at_ms > key
                invariant
                    p <= order@.len(),
                    i < reports@.len(),
                    forall|a: int| 0 <= a < order@.len() ==> (#[trigger] order@[a]) < i,
                    forall|a: int| p <= a < order@.len() ==> reports@[#[trigger] order@[a] as int].created_at_ms > key,
                decreases p,
            {
                p = p - 1;
            }
            let ghost before = order@;
            order.insert(p, i);
            proof {
                before.insert_ensures(p as int, i);
                assert forall|a: int, b: int| 0 <= a < b < order@.len() implies earlier(
                    reports@,
                    #[trigger] order@[a] as int,
                    #[trigger] order@[b] as int,
                ) by {
                    if b < p {
                        assert(order@[a] == before[a] && order@[b] == before[b]);
                    } else if a < p && b == p {
                        assert(order@[a] == before[a]);
                        if p > 0 && a < p - 1 {
                            assert(earlier(reports@, before[a] as int, before[p - 1] as int));
                        }
                    } else if a < p {
                        assert(order@[a] == before[a] && order@[b] == before[b - 1]);
                    } else if a == p {
                        assert(order@[b] == before[b - 1]);
                    } else {
                        assert(order@[a] == before[a - 1] && order@[b] == before[b - 1]);
                    }
                }
                assert forall|k: int| #[trigger] order@.contains(k as usize) && 0 <= k <= usize::MAX <==> (0 <= k < i + 1
                    && reports@[k].session_id@ == session_id@) by {
                    if 0 <= k <= usize::MAX && order@.contains(k as usize) {
                        let a = choose|a: int| 0 <= a < order@.len() && order@[a] == k as usize;
                        if a < p {
                            assert(before[a] == k as usize);
                            assert(before.contains(k as usize));
                        } else if a > p {
                            assert(before[a - 1] == k as usize);
                            assert(before.contains(k as usize));
                        }
                    }
                    if 0 <= k < i + 1 && reports@[k].session_id@ == session_id@ {
                        if k < i {
                            assert(before.contains(k as usize));
                            let a = choose|a: int| 0 <= a < before.len() && before[a] == k as usize;
                            if a < p {
                                assert(order@[a] == k as usize);
                            } else {
                                assert(order@[a + 1] == k as usize);
                            }
                        } else {
                            assert(order@[p as int] == k as usize);
                        }
                    }
                }
            }
        } else {
            proof {
                assert forall|k: int| #[trigger] order@.contains(k as usize) && 0 <= k <= usize::MAX <==> (0 <= k < i + 1
                    && reports@[k].session_id@ == session_id@) by {
                    if k == i && order@.contains(k as usize) {
                        let a = choose|a: int| 0 <= a < order@.len() && order@[a] == k as usize;
                    }
                }
            }
        }
        i = i + 1;
    }
    order
}

/// The latest report of `session`: the last in time order, if it has any.
pub fn latest_session_replay(reports: &Vec<ReplayAnalysisReport>, session_id: &str) -> (r: Option<usize>)
    ensures
        match r {
            Some(i) => i < reports@.len() && reports@[i as int].session_id@ == session_id@ && forall|j: int|
                0 <= j < reports@.len() && reports@[j].session_id@ == session_id@ && j != i ==> earlier(
                    reports@,
                    j,
                    i as int,
                ),
            None => forall|j: int| 0 <= j < reports@.len() ==> reports@[j].session_id@ != session_id@,
        },
{
    let order = session_replay_order(reports, session_id);
    if order.len() == 0 {
        proof {
            assert forall|j: int| 0 <= j < reports@.len() implies reports@[j].session_id@ != session_id@ by {
                if reports@[j].session_id@ == session_id@ {
                    assert(order@.contains(j as usize));
                }
            }
        }
        None
    } else {
        let last = order[order.len() - 1];
        proof {
            let n = order@.len() - 1;
            assert(order@[n] == last);
            assert(order@.contains(last));
            assert(((last as int) as usize) == last);
            assert(order@.contains((last as int) as usize) && 0 <= last as int <= usize::MAX);
            assert(last < reports@.len() && reports@[last as int].session_id@ == session_id@);
            assert forall|j: int| 0 <= j < reports@.len() && reports@[j].session_id@ == session_id@ && j != last
                implies earlier(reports@, j, last as int) by {
                assert(order@.contains(j as usize));
                let a = choose|a: int| 0 <= a < order@.len() && order@[a] == j as usize;
                assert(a != n);
                assert(earlier(reports@, order@[a] as int, order@[n] as int));
            }
        }
        Some(last)
    }
}

} // verus!
