//! The bounded prompt cache: responses by cache key, oldest evicted first once
//! the capacity is reached.
use vstd::prelude::*;

use crate::providers::messages::{LlmResponse, ToolCall};
use crate::text::str_equal;

verus! {

/// A cached response seen as its content text and its tool calls.
pub type ResponseView = (Option<Seq<char>>, Seq<ToolCall>);

/// The view of a response.
pub open spec fn response_view(r: LlmResponse) -> ResponseView {
    (
        match r.content {
            Some(c) => Some(c@),
            None => None,
        },
        r.tool_calls@,
    )
}

/// One cache line seen as its key and response.
pub type LineView = (Seq<char>, ResponseView);

/// The lines with the oldest one dropped when there are already `capacity` or
/// more of them.
pub open spec fn after_eviction(lines: Seq<LineView>, capacity: nat) -> Seq<LineView> {
    if lines.len() >= capacity && lines.len() > 0 {
        lines.drop_first()
    } else {
        lines
    }
}

/// The position of the line with key `key`, if any.
pub open spec fn line_index(lines: Seq<LineView>, key: Seq<char>) -> Option<int>
    decreases lines.len(),
{
    if lines.len() == 0 {
        None
    } else if lines.last().0 == key {
        Some(lines.len() - 1)
    } else {
        line_index(lines.drop_last(), key)
    }
}

/// The lines with `key` set to `value`: in place when present, else appended.
pub open spec fn with_line(lines: Seq<LineView>, key: Seq<char>, value: ResponseView) -> Seq<LineView> {
    match line_index(lines, key) {
        Some(i) => lines.update(i, (key, value)),
        None => lines.push((key, value)),
    }
}

/// The response cached under `key`, if any.
pub open spec fn lookup(lines: Seq<LineView>, key: Seq<char>) -> Option<ResponseView> {
    match line_index(lines, key) {
        Some(i) => Some(lines[i].1),
        None => None,
    }
}

/// No two lines share a key.
pub open spec fn keys_unique(lines: Seq<LineView>) -> bool {
    forall|i: int, j: int| 0 <= i < j < lines.len() ==> (#[trigger] lines[i]).0 != (#[trigger] lines[j]).0
}

struct CacheLine {
    key: String,
    response: LlmResponse,
}

/// Responses by prompt cache key, holding at most `capacity` lines (at least one
/// once something was stored).
pub struct PromptCache {
    lines: Vec<CacheLine>,
    capacity: usize,
}

spec fn line_view(l: CacheLine) -> LineView {
    (l.key@, response_view(l.response))
}

spec fn lines_view(lines: Seq<CacheLine>) -> Seq<LineView> {
    lines.map_values(|l: CacheLine| line_view(l))
}

impl View for PromptCache {
    type V = Seq<LineView>;

    closed spec fn view(&self) -> Seq<LineView> {
        lines_view(self.lines@)
    }
}

proof fn lemma_line_index(lines: Seq<LineView>, key: Seq<char>)
    ensures
        match line_index(lines, key) {
            Some(i) => 0 <= i < lines.len() && lines[i].0 == key && forall|j: int|
                i < j < lines.len() ==> (#[trigger] lines[j]).0 != key,
            None => forall|j: int| 0 <= j < lines.len() ==> (#[trigger] lines[j]).0 != key,
        },
    decreases lines.len(),
{
    if lines.len() > 0 {
        lemma_line_index(lines.drop_last(), key);
        assert forall|j: int| 0 <= j < lines.len() - 1 implies lines.drop_last()[j] == #[trigger] lines[j] by {}
    }
}

proof fn lemma_unique_index(lines: Seq<LineView>, key: Seq<char>, i: int)
    requires
        keys_unique(lines),
        0 <= i < lines.len(),
        lines[i].0 == key,
    ensures
        line_index(lines, key) == Some(i),
{
    lemma_line_index(lines, key);
    match line_index(lines, key) {
        Some(k) => {
            if k < i {
                assert(lines[k].0 != lines[i].0);
            } else if i < k {
                assert(lines[i].0 != lines[k].0);
            }
        },
        None => {
            assert(lines[i].0 != key);
        },
    }
}

fn index_in(lines: &Vec<CacheLine>, key: &str) -> (r: Option<usize>)
    ensures
        match r {
            Some(i) => line_index(lines_view(lines@), key@) == Some(i as int),
            None => line_index(lines_view(lines@), key@) is None,
        },
{
    proof {
        lemma_line_index(lines_view(lines@), key@);
    }
    let mut i: usize = lines.len();
    while i > 0
        invariant
            i <= lines@.len(),
            forall|j: int| i <= j < lines_view(lines@).len() ==> (#[trigger] lines_view(lines@)[j]).0 != key@,
            match line_index(lines_view(lines@), key@) {
                Some(k) => 0 <= k < lines_view(lines@).len() && lines_view(lines@)[k].0 == key@ && forall|j: int|
                    k < j < lines_view(lines@).len() ==> (#[trigger] lines_view(lines@)[j]).0 != key@,
                None => forall|j: int| 0 <= j < lines_view(lines@).len() ==> (#[trigger] lines_view(lines@)[j]).0 != key@,
            },
        decreases i,
    {
        assert(lines_view(lines@)[i - 1] == line_view(lines@[i - 1]));
        if str_equal(lines[i - 1].key.as_str(), key) {
            proof {
                match line_index(lines_view(lines@), key@) {
                    Some(k) => {
                        if k > i - 1 {
                            assert(lines_view(lines@)[k].0 != key@);
                        } else if k < i - 1 {
                            assert(lines_view(lines@)[i - 1].0 != key@);
                        }
                    },
                    None => {
                        assert(lines_view(lines@)[i - 1].0 != key@);
                    },
                }
            }
            return Some(i - 1);
        }
        i = i - 1;
    }
    proof {
        if let Some(k) = line_index(lines_view(lines@), key@) {
            assert(lines_view(lines@)[k].0 != key@);
        }
    }
    None
}


impl PromptCache {
    /// No two lines share a key.
    #[verifier::type_invariant]
    spec fn keys_are_unique(&self) -> bool {
        keys_unique(lines_view(self.lines@))
    }

    /// The most lines the cache keeps.
    pub closed spec fn spec_capacity(&self) -> nat {
        self.capacity as nat
    }

    /// An empty cache that keeps at most `capacity` lines.
    pub fn new(capacity: usize) -> (c: PromptCache)
        ensures
            c@ == Seq::<LineView>::empty(),
            c.spec_capacity() == capacity,
            keys_unique(c@),
    {
        let c = PromptCache { lines: Vec::new(), capacity };
        assert(c@ =~= Seq::<LineView>::empty());
        c
    }

    /// How many lines are cached.
    pub fn len(&self) -> (n: usize)
        ensures
            n == self@.len(),
    {
        self.lines.len()
    }

    fn index_of(&self, key: &str) -> (r: Option<usize>)
        ensures
            match r {
                Some(i) => line_index(self@, key@) == Some(i as int),
                None => line_index(self@, key@) is None,
            },
    {
        index_in(&self.lines, key)
    }

    /// The response cached under `key`.
    pub fn get(&self, key: &str) -> (r: Option<LlmResponse>)
        ensures
            match r {
                Some(resp) => lookup(self@, key@) == Some(response_view(resp)),
                None => lookup(self@, key@) is None,
            },
    {
        match self.index_of(key) {
            Some(i) => {
                proof {
                    lemma_line_index(self@, key@);
                }
                let resp = self.lines[i].response.duplicate();
                assert(self@[i as int] == line_view(self.lines@[i as int]));
                Some(resp)
            },
            None => None,
        }
    }

    /// Stores `response` under `key`. When the cache already holds `capacity`
    /// lines, the oldest one is dropped first.
    pub fn insert(&mut self, key: String, response: LlmResponse)
        ensures
            keys_unique(final(self)@),
            final(self).spec_capacity() == old(self).spec_capacity(),
            final(self)@ == with_line(
                after_eviction(old(self)@, old(self).spec_capacity()),
                key@,
                response_view(response),
            ),
    {
        proof {
            use_type_invariant(&*self);
        }
        let ghost k = key@;
        let ghost v = response_view(response);
        let ghost start = self@;
        let mut lines: Vec<CacheLine> = Vec::new();
        std::mem::swap(&mut lines, &mut self.lines);
        assert(lines_view(lines@) == start);
        if lines.len() >= self.capacity && lines.len() > 0 {
            let ghost before = lines_view(lines@);
            lines.remove(0);
            assert(lines_view(lines@) =~= before.drop_first());
        }
        let ghost mid = lines_view(lines@);
        assert(keys_unique(mid)) by {
            if start.len() >= self.capacity && start.len() > 0 {
                assert forall|a: int, b: int| 0 <= a < b < mid.len() implies (#[trigger] mid[a]).0 != (#[trigger] mid[b]).0 by {
                    assert(start[a + 1].0 != start[b + 1].0);
                }
            }
        }
        match index_in(&lines, key.as_str()) {
            Some(i) => {
                proof {
                    lemma_line_index(mid, k);
                }
                lines.set(i, CacheLine { key, response });
                proof {
                    assert(lines_view(lines@) =~= mid.update(i as int, (k, v)));
                    assert forall|a: int, b: int| 0 <= a < b < lines_view(lines@).len() implies (#[trigger] lines_view(
                        lines@,
                    )[a]).0 != (#[trigger] lines_view(lines@)[b]).0 by {
                        assert(mid[a].0 != mid[b].0);
                    }
                }
            },
            None => {
                proof {
                    lemma_line_index(mid, k);
                }
                lines.push(CacheLine { key, response });
                proof {
                    assert(lines_view(lines@) =~= mid.push((k, v)));
                    assert forall|a: int, b: int| 0 <= a < b < lines_view(lines@).len() implies (#[trigger] lines_view(
                        lines@,
                    )[a]).0 != (#[trigger] lines_view(lines@)[b]).0 by {
                        if b < mid.len() {
                            assert(mid[a].0 != mid[b].0);
                        } else {
                            assert(mid[a].0 != k);
                        }
                    }
                }
            },
        }
        self.lines = lines;
    }
}

/// After a store, the stored response is what the key gives back, and the cache
/// never grows past its capacity (or one line, for a capacity of zero).
pub proof fn law_cache_read_after_write(lines: Seq<LineView>, capacity: nat, key: Seq<char>, value: ResponseView)
    requires
        keys_unique(lines),
        lines.len() <= if capacity > 0 { capacity } else { 1 },
    ensures
        lookup(with_line(after_eviction(lines, capacity), key, value), key) == Some(value),
        with_line(after_eviction(lines, capacity), key, value).len() <= if capacity > 0 { capacity } else { 1 },
{
    let mid = after_eviction(lines, capacity);
    assert(keys_unique(mid)) by {
        if lines.len() >= capacity && lines.len() > 0 {
            assert forall|a: int, b: int| 0 <= a < b < mid.len() implies (#[trigger] mid[a]).0 != (#[trigger] mid[b]).0 by {
                assert(lines[a + 1].0 != lines[b + 1].0);
            }
        }
    }
    lemma_line_index(mid, key);
    let out = with_line(mid, key, value);
    match line_index(mid, key) {
        Some(i) => {
            assert(out[i] == (key, value));
            assert(keys_unique(out)) by {
                assert forall|a: int, b: int| 0 <= a < b < out.len() implies (#[trigger] out[a]).0 != (#[trigger] out[b]).0 by {
                    assert(mid[a].0 != mid[b].0);
                }
            }
            lemma_unique_index(out, key, i);
        },
        None => {
            let n = mid.len() as int;
            assert(out[n] == (key, value));
            assert(keys_unique(out)) by {
                assert forall|a: int, b: int| 0 <= a < b < out.len() implies (#[trigger] out[a]).0 != (#[trigger] out[b]).0 by {
                    if b < n {
                        assert(mid[a].0 != mid[b].0);
                    } else {
                        assert(mid[a].0 != key);
                    }
                }
            }
            lemma_unique_index(out, key, n);
        },
    }
}

} // verus!
