//! The strategy layer's next-iteration proposal: the prompt it sends and the
//! proposal it assembles from the reply.
use vstd::prelude::*;

use crate::providers::messages::{messages_view, ChatMessage, MessageView, OptimizationProposal, OptimizationSignal};
use crate::text::{concat2, concat3, has_sub, join_strings, joined, lower, lower_str, contains_str, texts};

verus! {

/// The signals written `key=value`.
pub open spec fn signal_pairs(signals: Seq<OptimizationSignal>) -> Seq<Seq<char>> {
    signals.map_values(|s: OptimizationSignal| s.key@ + "="@ + s.value@)
}

/// The signals written `key=value` and joined with `, `.
pub open spec fn signal_text(signals: Seq<OptimizationSignal>) -> Seq<char> {
    joined(signal_pairs(signals), ", "@)
}

/// The system turn that frames the strategy request.
pub open spec fn strategy_system_prompt() -> Seq<char> {
    "You are the strategy layer for autonomous optimization. Propose the next iteration, focusing on the highest-leverage bounded change, expected gain, risk, and evaluation focus."@
}

/// The user turn of the strategy request.
pub open spec fn strategy_user_prompt(objective: Seq<char>, history: Seq<char>, signals: Seq<OptimizationSignal>) -> Seq<
    char,
> {
    "Objective: "@ + objective + "\nHistory: "@ + history + "\nSignals: "@ + signal_text(signals)
}

/// The hypothesis used when the model gives no content.
pub open spec fn fallback_hypothesis(signals: Seq<OptimizationSignal>) -> Seq<char> {
    "Use strategy signals ("@ + signal_text(signals) + ") to improve the fixed-budget evaluation outcome."@
}

/// The risk statement: medium after a crash in the history, else low to medium.
pub open spec fn proposal_risk(history: Seq<char>) -> Seq<char> {
    if has_sub(lower(history), "crash"@) {
        "Medium: recent failures suggest guarding against unstable structural changes."@
    } else {
        "Low to medium: prefer bounded changes within the current evaluation budget."@
    }
}

/// The signals written `key=value` and joined with `, `.
pub fn join_signals(signals: &[OptimizationSignal]) -> (r: String)
    ensures
        r@ == signal_text(signals@),
{
    let mut parts: Vec<String> = Vec::new();
    let mut i: usize = 0;
    while i < signals.len()
        invariant
            i <= signals@.len(),
            texts(parts@) == signal_pairs(signals@.subrange(0, i as int)),
        decreases signals@.len() - i,
    {
        let ghost before = parts@;
        let pair = concat3(signals[i].key.as_str(), "=", signals[i].value.as_str());
        parts.push(pair);
        proof {
            assert(texts(parts@) =~= texts(before).push(pair@));
            assert(signal_pairs(signals@.subrange(0, i + 1)) =~= signal_pairs(signals@.subrange(0, i as int)).push(
                signals@[i as int].key@ + "="@ + signals@[i as int].value@,
            ));
        }
        i = i + 1;
    }
    assert(signals@.subrange(0, signals@.len() as int) =~= signals@);
    join_strings(&parts, ", ")
}

/// The two turns sent to the strategy model: the framing system turn and the
/// objective, history and signals as the user turn.
pub fn next_iteration_prompt(objective: &str, history_summary: &str, signals: &[OptimizationSignal]) -> (r: Vec<
    ChatMessage,
>)
    ensures
        messages_view(r@) == seq![
            ("system"@, strategy_system_prompt()),
            ("user"@, strategy_user_prompt(objective@, history_summary@, signals@)),
        ],
{
    let signal_line = join_signals(signals);
    let a = concat3("Objective: ", objective, "\nHistory: ");
    let b = concat3(a.as_str(), history_summary, "\nSignals: ");
    let content = concat2(b.as_str(), signal_line.as_str());
    let mut r: Vec<ChatMessage> = Vec::new();
    r.push(
        ChatMessage::from_parts(
            "system",
            "You are the strategy layer for autonomous optimization. Propose the next iteration, focusing on the highest-leverage bounded change, expected gain, risk, and evaluation focus.",
        ),
    );
    r.push(ChatMessage { role: String::from_str("user"), content });
    assert(messages_view(r@) =~= seq![
        ("system"@, strategy_system_prompt()),
        ("user"@, strategy_user_prompt(objective@, history_summary@, signals@)),
    ]);
    r
}

/// The proposal built around the strategy model's reply: its content is the
/// hypothesis (or a fallback naming the signals), and the risk follows the
/// history.
pub fn proposal_from_reply(history_summary: &str, signals: &[OptimizationSignal], reply: Option<String>) -> (p:
    OptimizationProposal)
    ensures
        p.title@ == "Autonomous optimization iteration"@,
        p.change_target@ == "current target surface"@,
        p.hypothesis@ == match reply {
            Some(c) => c@,
            None => fallback_hypothesis(signals@),
        },
        p.expected_gain@ == "Improve the immutable objective while preserving simplicity and bounded risk."@,
        p.risk@ == proposal_risk(history_summary@),
        texts(p.patch_outline@) == seq![
            "Adjust one coherent slice of the system."@,
            "Keep the evaluation protocol read-only."@,
            "Capture observable outcomes and compare against the current incumbent."@,
        ],
        p.evaluation_focus@ == "immutable evaluation protocol or equivalent fixed success criteria"@,
{
    let hypothesis = match reply {
        Some(c) => c,
        None => {
            let line = join_signals(signals);
            concat3("Use strategy signals (", line.as_str(), ") to improve the fixed-budget evaluation outcome.")
        },
    };
    let lowered = lower_str(history_summary);
    let risk = if contains_str(lowered.as_str(), "crash") {
        String::from_str("Medium: recent failures suggest guarding against unstable structural changes.")
    } else {
        String::from_str("Low to medium: prefer bounded changes within the current evaluation budget.")
    };
    let mut outline: Vec<String> = Vec::new();
    outline.push(String::from_str("Adjust one coherent slice of the system."));
    outline.push(String::from_str("Keep the evaluation protocol read-only."));
    outline.push(String::from_str("Capture observable outcomes and compare against the current incumbent."));
    assert(texts(outline@) =~= seq![
        "Adjust one coherent slice of the system."@,
        "Keep the evaluation protocol read-only."@,
        "Capture observable outcomes and compare against the current incumbent."@,
    ]);
    OptimizationProposal {
        title: String::from_str("Autonomous optimization iteration"),
        change_target: String::from_str("current target surface"),
        hypothesis,
        expected_gain: String::from_str("Improve the immutable objective while preserving simplicity and bounded risk."),
        risk,
        patch_outline: outline,
        evaluation_focus: String::from_str("immutable evaluation protocol or equivalent fixed success criteria"),
    }
}

} // verus!
