//! What a knowledge export reads: the session an anchor names, the record key
//! or key prefixes each export type stands for, and the key index (every key
//! once, in ascending order).
use vstd::prelude::*;

use crate::text::{chars_of, concat2, concat3, starts, str_equal, texts};

verus! {

/// The text with every leading `anchor:` taken off.
pub open spec fn strip_anchor(s: Seq<char>) -> Seq<char>
    decreases s.len(),
{
    if s.len() >= 7 && starts(s, "anchor:"@) {
        strip_anchor(s.skip(7))
    } else {
        s
    }
}

/// The session an anchor or session id names: the text with every leading
/// `anchor:` removed.
pub fn export_session_id(anchor_or_session: &str) -> (r: String)
    ensures
        r@ == strip_anchor(anchor_or_session@),
{
    let v = chars_of(anchor_or_session);
    let mut i: usize = 0;
    proof {
        reveal_strlit("anchor:");
        assert(v@.skip(0) =~= v@);
    }
    while 7 <= v.len() - i && v[i] == 'a' && v[i + 1] == 'n' && v[i + 2] == 'c' && v[i + 3] == 'h' && v[i + 4] == 'o'
        && v[i + 5] == 'r' && v[i + 6] == ':'
        invariant
            i <= v@.len(),
            v@ == anchor_or_session@,
            strip_anchor(v@.skip(i as int)) == strip_anchor(anchor_or_session@),
        decreases v@.len() - i,
    {
        proof {
            reveal_strlit("anchor:");
            let s = v@.skip(i as int);
            assert(starts(s, "anchor:"@)) by {
                assert(s.subrange(0, 7) =~= "anchor:"@);
            }
            assert(s.skip(7) =~= v@.skip(i + 7));
        }
        i = i + 7;
    }
    proof {
        reveal_strlit("anchor:");
        let s = v@.skip(i as int);
        if s.len() >= 7 && starts(s, "anchor:"@) {
            assert(s.subrange(0, 7)[0] == 'a');
            assert(s.subrange(0, 7)[1] == 'n');
            assert(s.subrange(0, 7)[2] == 'c');
            assert(s.subrange(0, 7)[3] == 'h');
            assert(s.subrange(0, 7)[4] == 'o');
            assert(s.subrange(0, 7)[5] == 'r');
            assert(s.subrange(0, 7)[6] == ':');
        }
    }
    assert(v@.subrange(i as int, v@.len() as int) =~= v@.skip(i as int));
    crate::text::string_of_range(&v, i, v.len())
}

/// How an export type is answered.
#[derive(Debug)]
pub enum KnowledgeExport {
    /// Every key under these prefixes, once each and in ascending order.
    Index { prefixes: Vec<String> },
    /// The values under this prefix that are JSON documents.
    Listing { prefix: String },
    /// The session's strategy memory layers.
    StrategyLayers,
    /// The dashboard snapshot.
    Dashboard,
    /// The session replay.
    Replay,
    /// The replay report.
    ReplayReport,
    /// The value stored under this key, or `{}` without one.
    Record { key: String },
}

/// The key prefixes the index lists for a session.
pub open spec fn index_prefixes(session: Seq<char>) -> Seq<Seq<char>> {
    seq![
        "anchor:"@ + session,
        "graph:"@ + session + ":"@,
        "research:"@ + session + ":"@,
        "memory:"@ + session + ":"@,
        "conversation:"@ + session + ":"@,
        "protocol:"@ + session + ":"@,
        "observability:"@ + session + ":"@,
        "business:work-order:"@ + session + ":"@,
        "business:revenue-event:"@ + session + ":"@,
        "replay:analysis:"@,
    ]
}

/// The record an export type reads, for the types answered by one record; any
/// type not known otherwise reads the session's graph snapshot.
pub open spec fn record_key(session: Seq<char>, t: Seq<char>) -> Seq<char> {
    if t == "brief"@ {
        "anchor:"@ + session + ":brief"@
    } else if t == "research"@ {
        "research:"@ + session + ":report"@
    } else if t == "research-follow-up"@ {
        "research:"@ + session + ":follow-up-status"@
    } else if t == "research-proxy"@ {
        "research:"@ + session + ":proxy-forensics"@
    } else if t == "resilience"@ {
        "observability:"@ + session + ":resilience"@
    } else if t == "business"@ {
        "observability:"@ + session + ":business-report"@
    } else if t == "margin"@ {
        "observability:"@ + session + ":margin-report"@
    } else if t == "sla"@ {
        "observability:"@ + session + ":sla-report"@
    } else if t == "deliberation"@ {
        "conversation:"@ + session + ":deliberation"@
    } else if t == "consolidation"@ {
        "memory:"@ + session + ":consolidation"@
    } else if t == "self-evolution"@ {
        "memory:"@ + session + ":self-evolution"@
    } else if t == "global-graph"@ {
        "graph:global:snapshot"@
    } else {
        "graph:"@ + session + ":snapshot"@
    }
}

/// How an export of type `t` for `session` is answered.
pub open spec fn export_plan(session: Seq<char>, t: Seq<char>, r: KnowledgeExport) -> bool {
    if t == "index"@ {
        r is Index && texts(r->prefixes@) == index_prefixes(session)
    } else if t == "work-orders"@ {
        r is Listing && r->prefix@ == "business:work-order:"@ + session + ":"@
    } else if t == "revenue"@ {
        r is Listing && r->prefix@ == "business:revenue-event:"@ + session + ":"@
    } else if t == "strategy-layers"@ {
        r is StrategyLayers
    } else if t == "dashboard"@ {
        r is Dashboard
    } else if t == "replay"@ {
        r is Replay
    } else if t == "replay-report"@ {
        r is ReplayReport
    } else {
        r is Record && r->key@ == record_key(session, t)
    }
}

fn session_key(prefix: &str, session: &str, suffix: &str) -> (r: String)
    ensures
        r@ == prefix@ + session@ + suffix@,
{
    concat3(prefix, session, suffix)
}

fn index_prefix_list(session: &str) -> (r: Vec<String>)
    ensures
        texts(r@) == index_prefixes(session@),
{
    let mut v: Vec<String> = Vec::new();
    v.push(concat2("anchor:", session));
    v.push(session_key("graph:", session, ":"));
    v.push(session_key("research:", session, ":"));
    v.push(session_key("memory:", session, ":"));
    v.push(session_key("conversation:", session, ":"));
    v.push(session_key("protocol:", session, ":"));
    v.push(session_key("observability:", session, ":"));
    v.push(session_key("business:work-order:", session, ":"));
    v.push(session_key("business:revenue-event:", session, ":"));
    v.push(String::from_str("replay:analysis:"));
    assert(texts(v@) =~= index_prefixes(session@));
    v
}

fn record_key_for(session: &str, t: &str) -> (r: String)
    ensures
        r@ == record_key(session@, t@),
{
    proof {
        reveal_strlit("brief");
        reveal_strlit("research");
        reveal_strlit("research-follow-up");
        reveal_strlit("research-proxy");
        reveal_strlit("resilience");
        reveal_strlit("business");
        reveal_strlit("margin");
        reveal_strlit("sla");
        reveal_strlit("deliberation");
        reveal_strlit("consolidation");
        reveal_strlit("self-evolution");
        reveal_strlit("global-graph");
    }
    if str_equal(t, "brief") {
        session_key("anchor:", session, ":brief")
    } else if str_equal(t, "research") {
        session_key("research:", session, ":report")
    } else if str_equal(t, "research-follow-up") {
        session_key("research:", session, ":follow-up-status")
    } else if str_equal(t, "research-proxy") {
        session_key("research:", session, ":proxy-forensics")
    } else if str_equal(t, "resilience") {
        session_key("observability:", session, ":resilience")
    } else if str_equal(t, "business") {
        session_key("observability:", session, ":business-report")
    } else if str_equal(t, "margin") {
        session_key("observability:", session, ":margin-report")
    } else if str_equal(t, "sla") {
        session_key("observability:", session, ":sla-report")
    } else if str_equal(t, "deliberation") {
        session_key("conversation:", session, ":deliberation")
    } else if str_equal(t, "consolidation") {
        session_key("memory:", session, ":consolidation")
    } else if str_equal(t, "self-evolution") {
        session_key("memory:", session, ":self-evolution")
    } else if str_equal(t, "global-graph") {
        String::from_str("graph:global:snapshot")
    } else {
        session_key("graph:", session, ":snapshot")
    }
}

/// How a knowledge export of `export_type` for an anchor or session is
/// answered: the key index, a listing, one of the composed reports, or one
/// record.
pub fn plan_knowledge_export(anchor_or_session: &str, export_type: &str) -> (r: KnowledgeExport)
    ensures
        export_plan(strip_anchor(anchor_or_session@), export_type@, r),
{
    let session = export_session_id(anchor_or_session);
    let s = session.as_str();
    proof {
        reveal_strlit("index");
        reveal_strlit("work-orders");
        reveal_strlit("revenue");
        reveal_strlit("strategy-layers");
        reveal_strlit("dashboard");
        reveal_strlit("replay");
        reveal_strlit("replay-report");
    }
    if str_equal(export_type, "index") {
        KnowledgeExport::Index { prefixes: index_prefix_list(s) }
    } else if str_equal(export_type, "work-orders") {
        KnowledgeExport::Listing { prefix: session_key("business:work-order:", s, ":") }
    } else if str_equal(export_type, "revenue") {
        KnowledgeExport::Listing { prefix: session_key("business:revenue-event:", s, ":") }
    } else if str_equal(export_type, "strategy-layers") {
        KnowledgeExport::StrategyLayers
    } else if str_equal(export_type, "dashboard") {
        KnowledgeExport::Dashboard
    } else if str_equal(export_type, "replay") {
        KnowledgeExport::Replay
    } else if str_equal(export_type, "replay-report") {
        KnowledgeExport::ReplayReport
    } else {
        KnowledgeExport::Record { key: record_key_for(s, export_type) }
    }
}

/// `a` comes before `b` in the order of `String`: by character codes, a
/// proper prefix first.
pub open spec fn text_less(a: Seq<char>, b: Seq<char>) -> bool
    decreases a.len(),
{
    if a.len() == 0 {
        b.len() > 0
    } else if b.len() == 0 {
        false
    } else if a[0] != b[0] {
        a[0] < b[0]
    } else {
        text_less(a.drop_first(), b.drop_first())
    }
}

/// Each text comes strictly before every later one.
pub open spec fn strictly_ascending(s: Seq<Seq<char>>) -> bool {
    forall|i: int, j: int| 0 <= i < j < s.len() ==> text_less(#[trigger] s[i], #[trigger] s[j])
}

/// No text comes before itself.
pub proof fn lemma_text_less_irreflexive(a: Seq<char>)
    ensures
        !text_less(a, a),
    decreases a.len(),
{
    if a.len() > 0 {
        lemma_text_less_irreflexive(a.drop_first());
    }
}

/// The order is transitive.
pub proof fn lemma_text_less_transitive(a: Seq<char>, b: Seq<char>, c: Seq<char>)
    requires
        text_less(a, b),
        text_less(b, c),
    ensures
        text_less(a, c),
    decreases a.len(),
{
    if a.len() > 0 && b.len() > 0 && c.len() > 0 && a[0] == b[0] && b[0] == c[0] {
        lemma_text_less_transitive(a.drop_first(), b.drop_first(), c.drop_first());
    }
}

/// Of two different texts one comes before the other.
pub proof fn lemma_text_less_total(a: Seq<char>, b: Seq<char>)
    requires
        a != b,
    ensures
        text_less(a, b) || text_less(b, a),
    decreases a.len(),
{
    if a.len() > 0 && b.len() > 0 && a[0] == b[0] {
        if a.drop_first() == b.drop_first() {
            assert(a =~= seq![a[0]] + a.drop_first());
            assert(b =~= seq![b[0]] + b.drop_first());
        }
        lemma_text_less_total(a.drop_first(), b.drop_first());
    } else if a.len() == 0 && b.len() == 0 {
        assert(a =~= b);
    }
}

fn chars_less(a: &Vec<char>, b: &Vec<char>) -> (r: bool)
    ensures
        r == text_less(a@, b@),
{
    let mut i: usize = 0;
    proof {
        assert(a@.skip(0) =~= a@);
        assert(b@.skip(0) =~= b@);
    }
    while i < a.len() && i < b.len()
        invariant
            i <= a@.len(),
            i <= b@.len(),
            text_less(a@, b@) == text_less(a@.skip(i as int), b@.skip(i as int)),
        decreases a@.len() - i,
    {
        if a[i] != b[i] {
            return a[i] < b[i];
        }
        proof {
            assert(a@.skip(i as int).drop_first() =~= a@.skip(i + 1));
            assert(b@.skip(i as int).drop_first() =~= b@.skip(i + 1));
        }
        i = i + 1;
    }
    i == a.len() && i < b.len()
}

/// The keys, each once, in ascending order.
pub fn knowledge_index(keys: Vec<String>) -> (r: Vec<String>)
    ensures
        strictly_ascending(texts(r@)),
        texts(r@).no_duplicates(),
        texts(r@).to_set() == texts(keys@).to_set(),
{
    let mut out: Vec<String> = Vec::new();
    let mut i: usize = 0;
    while i < keys.len()
        invariant
            i <= keys@.len(),
            strictly_ascending(texts(out@)),
            texts(out@).to_set() == texts(keys@.subrange(0, i as int)).to_set(),
        decreases keys@.len() - i,
    {
        let key = &keys[i];
        let kc = chars_of(key.as_str());
        let mut p: usize = 0;
        while p < out.len()
            invariant
                p <= out@.len(),
                kc@ == key@,
                forall|j: int| 0 <= j < p ==> text_less(#[trigger] out@[j]@, key@),
            ensures
                p <= out@.len(),
                forall|j: int| 0 <= j < p ==> text_less(#[trigger] out@[j]@, key@),
                p < out@.len() ==> !text_less(out@[p as int]@, key@),
            decreases out@.len() - p,
        {
            let oc = chars_of(out[p].as_str());
            if !chars_less(&oc, &kc) {
                break;
            }
            p = p + 1;
        }
        let ghost before = out@;
        let present = p < out.len() && str_equal(out[p].as_str(), key.as_str());
        if !present {
            proof {
                if p < before.len() {
                    lemma_text_less_total(before[p as int]@, key@);
                    assert(text_less(key@, before[p as int]@));
                }
                assert forall|j: int| p <= j < before.len() implies text_less(key@, #[trigger] before[j]@) by {
                    if j > p {
                        assert(text_less(texts(before)[p as int], texts(before)[j]));
                        lemma_text_less_transitive(key@, before[p as int]@, before[j]@);
                    }
                }
            }
            out.insert(p, copy_key(key));
            proof {
                before.insert_ensures(p as int, out@[p as int]);
                let t = texts(out@);
                assert forall|a: int, b: int| 0 <= a < b < t.len() implies text_less(#[trigger] t[a], #[trigger] t[b]) by {
                    if b < p {
                        assert(texts(before)[a] == t[a] && texts(before)[b] == t[b]);
                    } else if a < p && b == p {
                    } else if a < p {
                        assert(texts(before)[a] == t[a] && texts(before)[b - 1] == t[b]);
                        lemma_text_less_transitive(t[a], key@, t[b]);
                    } else if a == p {
                        assert(t[b] == before[b - 1]@);
                    } else {
                        assert(texts(before)[a - 1] == t[a] && texts(before)[b - 1] == t[b]);
                    }
                }
            }
        }
        proof {
            let prev = texts(keys@.subrange(0, i as int));
            let next = texts(keys@.subrange(0, i + 1));
            assert(next =~= prev.push(key@));
            assert forall|x: Seq<char>| texts(out@).contains(x) <==> next.contains(x) by {
                if texts(out@).contains(x) {
                    let j = choose|j: int| 0 <= j < texts(out@).len() && texts(out@)[j] == x;
                    if present || j < p {
                        assert(texts(before).contains(x) || x == key@) by {
                            if j < p || present {
                                assert(texts(before)[j] == x);
                            }
                        }
                    } else if j > p {
                        assert(texts(before)[j - 1] == x);
                    }
                    if texts(before).contains(x) {
                        assert(texts(before).to_set().contains(x));
                        assert(prev.to_set().contains(x));
                        let k = choose|k: int| 0 <= k < prev.len() && prev[k] == x;
                        assert(next[k] == x);
                    } else {
                        assert(next[i as int] == x);
                    }
                }
                if next.contains(x) {
                    let k = choose|k: int| 0 <= k < next.len() && next[k] == x;
                    if k < i {
                        assert(prev[k] == x);
                        assert(prev.to_set().contains(x));
                        assert(texts(before).to_set().contains(x));
                        let j = choose|j: int| 0 <= j < texts(before).len() && texts(before)[j] == x;
                        if present || j < p {
                            assert(texts(out@)[j] == x);
                        } else {
                            assert(texts(out@)[j + 1] == x);
                        }
                    } else {
                        if present {
                            assert(texts(out@)[p as int] == x);
                        } else {
                            assert(texts(out@)[p as int] == x);
                        }
                    }
                }
            }
            assert(texts(out@).to_set() =~= next.to_set());
        }
        i = i + 1;
    }
    assert(keys@.subrange(0, keys@.len() as int) =~= keys@);
    proof {
        let t = texts(out@);
        assert forall|a: int, b: int| 0 <= a < t.len() && 0 <= b < t.len() && a != b implies t[a] != t[b] by {
            lemma_text_less_irreflexive(t[a]);
            if a < b {
                assert(text_less(t[a], t[b]));
            } else {
                assert(text_less(t[b], t[a]));
            }
        }
    }
    out
}

fn copy_key(s: &String) -> (r: String)
    ensures
        r@ == s@,
{
    s.clone()
}

/// `a` is a live focus anchor among `keys`: a brief is stored under
/// `{a}:brief` and no `{a}:deleted` marker.
pub open spec fn live_anchor(keys: Seq<Seq<char>>, a: Seq<char>) -> bool {
    &&& keys.contains(a + ":brief"@)
    &&& !keys.contains(a + ":deleted"@)
}

proof fn lemma_ends_with(a: Seq<char>, s: Seq<char>)
    ensures
        crate::text::ends(a + s, s),
{
    assert((a + s).subrange(a.len() as int, (a.len() + s.len()) as int) =~= s);
}

proof fn lemma_suffix_unique(a: Seq<char>, b: Seq<char>, s: Seq<char>)
    requires
        a + s == b + s,
    ensures
        a == b,
{
    assert((a + s).len() == a.len() + s.len());
    assert((b + s).len() == b.len() + s.len());
    assert(a =~= (a + s).subrange(0, a.len() as int));
    assert(b =~= (b + s).subrange(0, b.len() as int));
}

/// The text before `suffix`, when the text ends with it.
fn strip_suffix_text(s: &String, suffix: &str) -> (r: Option<String>)
    ensures
        match r {
            Some(p) => p@ + suffix@ == s@,
            None => !crate::text::ends(s@, suffix@),
        },
{
    if !crate::text::ends_with_str(s.as_str(), suffix) {
        return None;
    }
    let v = chars_of(s.as_str());
    let n = v.len() - suffix.unicode_len();
    let p = crate::text::string_of_range(&v, 0, n);
    assert(p@ + suffix@ =~= s@);
    Some(p)
}

fn contains_text(keys: &Vec<String>, t: &String) -> (b: bool)
    ensures
        b == texts(keys@).contains(t@),
{
    let mut i: usize = 0;
    while i < keys.len()
        invariant
            i <= keys@.len(),
            forall|j: int| 0 <= j < i ==> texts(keys@)[j] != t@,
        decreases keys@.len() - i,
    {
        if str_equal(keys[i].as_str(), t.as_str()) {
            assert(texts(keys@)[i as int] == t@);
            return true;
        }
        i = i + 1;
    }
    false
}

/// The live focus anchors among the keys stored under `anchor:`: those with a
/// brief and without a deletion marker, each once, in ascending order.
pub fn focus_anchors(keys: Vec<String>) -> (r: Vec<String>)
    ensures
        strictly_ascending(texts(r@)),
        texts(r@).no_duplicates(),
        forall|a: Seq<char>| #[trigger] texts(r@).contains(a) <==> live_anchor(texts(keys@), a),
{
    let mut live: Vec<String> = Vec::new();
    let mut i: usize = 0;
    proof {
        reveal_strlit(":brief");
        reveal_strlit(":deleted");
    }
    while i < keys.len()
        invariant
            i <= keys@.len(),
            forall|a: Seq<char>| #[trigger] texts(live@).contains(a) <==> (texts(keys@.subrange(0, i as int)).contains(
                a + ":brief"@,
            ) && !texts(keys@).contains(a + ":deleted"@)),
        decreases keys@.len() - i,
    {
        let ghost before = live@;
        let stripped = strip_suffix_text(&keys[i], ":brief");
        let mut added = false;
        match &stripped {
            Some(a) => {
                let marker = concat2(a.as_str(), ":deleted");
                if !contains_text(&keys, &marker) {
                    live.push(a.clone());
                    added = true;
                }
            },
            None => {},
        }
        proof {
            let prev = texts(keys@.subrange(0, i as int));
            let next = texts(keys@.subrange(0, i + 1));
            let k = keys@[i as int]@;
            assert(next =~= prev.push(k));
            assert(added ==> texts(live@) =~= texts(before).push(stripped->0@));
            assert(!added ==> texts(live@) =~= texts(before));
            assert forall|a: Seq<char>| #[trigger] texts(live@).contains(a) <==> (next.contains(a + ":brief"@)
                && !texts(keys@).contains(a + ":deleted"@)) by {
                if k == a + ":brief"@ {
                    lemma_ends_with(a, ":brief"@);
                    lemma_suffix_unique(a, stripped->0@, ":brief"@);
                }
                if texts(live@).contains(a) {
                    let j = choose|j: int| 0 <= j < texts(live@).len() && texts(live@)[j] == a;
                    if j < before.len() {
                        assert(texts(before)[j] == a);
                        assert(texts(before).contains(a));
                        let m = choose|m: int| 0 <= m < prev.len() && prev[m] == a + ":brief"@;
                        assert(next[m] == a + ":brief"@);
                    } else {
                        assert(next[i as int] == a + ":brief"@);
                    }
                }
                if next.contains(a + ":brief"@) && !texts(keys@).contains(a + ":deleted"@) {
                    let m = choose|m: int| 0 <= m < next.len() && next[m] == a + ":brief"@;
                    if m < i {
                        assert(prev[m] == a + ":brief"@);
                        assert(texts(before).contains(a));
                        let j = choose|j: int| 0 <= j < texts(before).len() && texts(before)[j] == a;
                        assert(texts(live@)[j] == a);
                    } else {
                        assert(texts(live@)[texts(live@).len() - 1] == a);
                    }
                }
            }
        }
        i = i + 1;
    }
    proof {
        assert(keys@.subrange(0, keys@.len() as int) =~= keys@);
    }
    let r = knowledge_index(live);
    proof {
        assert forall|a: Seq<char>| #[trigger] texts(r@).contains(a) <==> live_anchor(texts(keys@), a) by {
            assert(texts(r@).to_set().contains(a) == texts(r@).contains(a));
        }
    }
    r
}

} // verus!
