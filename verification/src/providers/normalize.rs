//! Prompt normalization: repeated lines and directives are dropped, long texts are
//! cut to a byte budget, and consecutive duplicate turns are merged.
use vstd::prelude::*;
use vstd::string::StringSliceAdditionalSpecFns;
use vstd::utf8::{decode_utf8, encode_utf8, is_char_boundary};

use crate::providers::messages::{messages_view, ChatMessage, MessageView};
use crate::text::{
    chars_of, concat2, is_space, joined, push_char, str_equal, texts, trim, trim_back, trim_front, trim_str,
};

verus! {

/// The pieces of `s` between the occurrences of `sep`, as `str::split` gives them.
pub open spec fn split_on(s: Seq<char>, sep: char) -> Seq<Seq<char>>
    decreases s.len(),
{
    if s.len() == 0 {
        seq![Seq::empty()]
    } else {
        let prev = split_on(s.drop_last(), sep);
        if s.last() == sep {
            prev.push(Seq::empty())
        } else {
            prev.update(prev.len() - 1, prev.last().push(s.last()))
        }
    }
}

/// Trims every item, drops the empty ones, and keeps only the first occurrence of
/// each remaining text, in order.
pub open spec fn dedupe_trimmed(items: Seq<Seq<char>>) -> Seq<Seq<char>>
    decreases items.len(),
{
    if items.len() == 0 {
        Seq::empty()
    } else {
        let prev = dedupe_trimmed(items.drop_last());
        let t = trim(items.last());
        if t.len() == 0 || prev.contains(t) {
            prev
        } else {
            prev.push(t)
        }
    }
}

/// What `dedupe_text` gives back: the trimmed, non-empty, first-seen lines of
/// `text`, joined with newlines. (`str::lines` also drops a `\r` before each
/// newline and an empty last line; trimming and the emptiness test drop those
/// as well.)
pub open spec fn deduped_text(text: Seq<char>) -> Seq<char> {
    joined(dedupe_trimmed(split_on(text, '\n')), seq!['\n'])
}

/// The characters whose UTF-8 encoding is the first `n` bytes of the encoding
/// of `s`.
pub open spec fn byte_prefix(s: Seq<char>, n: int) -> Seq<char> {
    decode_utf8(encode_utf8(s).subrange(0, n))
}

/// The byte length at which `compress_text` cuts a text longer than `limit`.
pub open spec fn cut_point(limit: usize) -> int {
    if limit >= 3 { limit - 3 } else { 0 }
}

/// What `compress_text` gives back: the text itself when its UTF-8 encoding fits
/// in `limit` bytes, else its first `limit - 3` bytes followed by `...`.
pub open spec fn compressed(text: Seq<char>, limit: usize) -> Seq<char> {
    if encode_utf8(text).len() <= limit {
        text
    } else {
        byte_prefix(text, cut_point(limit)) + "..."@
    }
}

/// `compress_text` can cut `text` at `limit` without splitting a character.
pub open spec fn cuttable(text: Seq<char>, limit: usize) -> bool {
    encode_utf8(text).len() > limit ==> is_char_boundary(encode_utf8(text), cut_point(limit))
}

/// The budget, in bytes, that each normalized message is cut to.
pub const MESSAGE_BYTE_LIMIT: usize = 1800;

/// What `normalize_messages` gives back for `messages`: each content is deduped;
/// a turn whose role equals the previous kept turn's role and whose deduped
/// content equals that turn's stored content is dropped; every kept content is
/// cut to the byte budget.
pub open spec fn normalized(messages: Seq<MessageView>) -> Seq<MessageView>
    decreases messages.len(),
{
    if messages.len() == 0 {
        Seq::empty()
    } else {
        let prev = normalized(messages.drop_last());
        let m = messages.last();
        let content = deduped_text(m.1);
        if prev.len() > 0 && prev.last().0 == m.0 && prev.last().1 == content {
            prev
        } else {
            prev.push((m.0, compressed(content, MESSAGE_BYTE_LIMIT)))
        }
    }
}

/// Every message of the list can be cut to the byte budget after deduping.
pub open spec fn messages_cuttable(messages: Seq<MessageView>) -> bool {
    forall|i: int| 0 <= i < messages.len() ==> cuttable(deduped_text(#[trigger] messages[i].1), MESSAGE_BYTE_LIMIT)
}

proof fn lemma_split_nonempty(s: Seq<char>, sep: char)
    ensures
        split_on(s, sep).len() >= 1,
    decreases s.len(),
{
    if s.len() > 0 {
        lemma_split_nonempty(s.drop_last(), sep);
    }
}

/// Whether `t` is among the texts of `v`.
fn contains_text(v: &Vec<String>, t: &str) -> (b: bool)
    ensures
        b == texts(v@).contains(t@),
{
    let mut i: usize = 0;
    while i < v.len()
        invariant
            i <= v.len(),
            forall|k: int| 0 <= k < i ==> v@[k]@ != t@,
        decreases v.len() - i,
    {
        if str_equal(v[i].as_str(), t) {
            assert(texts(v@)[i as int] == t@);
            return true;
        }
        i = i + 1;
    }
    proof {
        if texts(v@).contains(t@) {
            let k = choose|k: int| 0 <= k < texts(v@).len() && texts(v@)[k] == t@;
            assert(v@[k]@ == t@);
        }
    }
    false
}

/// One step of the dedupe: trims `item` and appends it unless it is empty or
/// already kept.
fn keep_first(kept: &mut Vec<String>, item: &str)
    ensures
        texts(final(kept)@) == ({
            let t = trim(item@);
            if t.len() == 0 || texts(old(kept)@).contains(t) {
                texts(old(kept)@)
            } else {
                texts(old(kept)@).push(t)
            }
        }),
{
    let t = trim_str(item);
    if t.as_str().is_empty() {
        return;
    }
    if contains_text(kept, t.as_str()) {
        return;
    }
    let ghost before = kept@;
    kept.push(t);
    assert(texts(kept@) =~= texts(before).push(trim(item@)));
}

/// The directives trimmed, without empty ones and without repeats, in their
/// first-seen order.
pub fn dedupe_directives(directives: &[String]) -> (r: Vec<String>)
    ensures
        texts(r@) == dedupe_trimmed(texts(directives@)),
{
    let mut kept: Vec<String> = Vec::new();
    let mut i: usize = 0;
    while i < directives.len()
        invariant
            i <= directives@.len(),
            texts(kept@) == dedupe_trimmed(texts(directives@.subrange(0, i as int))),
        decreases directives@.len() - i,
    {
        proof {
            assert(texts(directives@.subrange(0, i + 1)).drop_last() =~= texts(directives@.subrange(0, i as int)));
        }
        keep_first(&mut kept, directives[i].as_str());
        i = i + 1;
    }
    assert(directives@.subrange(0, directives@.len() as int) =~= directives@);
    kept
}

/// The trimmed, non-empty lines of `text` without repeats, in first-seen order,
/// joined with newlines.
pub fn dedupe_text(text: &str) -> (r: String)
    ensures
        r@ == deduped_text(text@),
{
    let chars = chars_of(text);
    let mut kept: Vec<String> = Vec::new();
    let mut line = String::new();
    let mut i: usize = 0;
    while i < chars.len()
        invariant
            i <= chars@.len(),
            chars@ == text@,
            split_on(chars@.subrange(0, i as int), '\n').len() >= 1,
            line@ == split_on(chars@.subrange(0, i as int), '\n').last(),
            texts(kept@) == dedupe_trimmed(split_on(chars@.subrange(0, i as int), '\n').drop_last()),
        decreases chars@.len() - i,
    {
        let c = chars[i];
        let ghost pre = chars@.subrange(0, i as int);
        let ghost next = chars@.subrange(0, i + 1);
        proof {
            assert(next.drop_last() =~= pre);
            assert(next.last() == c);
            lemma_split_nonempty(pre, '\n');
        }
        if c == '\n' {
            keep_first(&mut kept, line.as_str());
            line = String::new();
            proof {
                let sp = split_on(pre, '\n');
                assert(split_on(next, '\n') == sp.push(Seq::empty()));
                assert(split_on(next, '\n').drop_last() =~= sp);
                assert(sp.drop_last().push(sp.last()) =~= sp);
                assert(dedupe_trimmed(sp).len() >= 0);
                assert(line@ =~= split_on(next, '\n').last());
            }
        } else {
            let ghost old_line = line@;
            push_char(&mut line, c);
            proof {
                let sp = split_on(pre, '\n');
                assert(split_on(next, '\n') == sp.update(sp.len() - 1, sp.last().push(c)));
                assert(split_on(next, '\n').drop_last() =~= sp.drop_last());
                assert(line@ =~= old_line.push(c));
            }
        }
        i = i + 1;
    }
    keep_first(&mut kept, line.as_str());
    proof {
        let sp = split_on(chars@, '\n');
        assert(chars@.subrange(0, chars@.len() as int) =~= chars@);
        assert(sp.drop_last().push(sp.last()) =~= sp);
    }
    let r = crate::text::join_strings(&kept, "\n");
    proof {
        reveal_strlit("\n");
        assert("\n"@ =~= seq!['\n']);
    }
    r
}

/// `text` unchanged when it fits in `limit` bytes, else its first
/// `limit - 3` bytes followed by `...`.
pub fn compress_text(text: &str, limit: usize) -> (r: String)
    requires
        cuttable(text@, limit),
    ensures
        r@ == compressed(text@, limit),
{
    let byte_len = text.as_bytes().len();
    if byte_len <= limit {
        let r = String::from_str(text);
        assert(encode_utf8(text@).len() <= limit);
        assert(r@ == text@);
        r
    } else {
        let cut = limit.saturating_sub(3);
        proof {
            assert(cut == cut_point(limit));
        }
        let (head, _tail) = text.split_at(cut);
        proof {
            vstd::utf8::encode_utf8_decode_utf8(head@);
            assert(head.spec_bytes() == encode_utf8(head@));
            assert(head@ == byte_prefix(text@, cut_point(limit)));
        }
        let r = concat2(head, "...");
        assert(encode_utf8(text@).len() > limit);
        r
    }
}

/// The messages with each content deduped, consecutive repeats of a turn
/// dropped, and every content cut to the byte budget.
pub fn normalize_messages(messages: &[ChatMessage]) -> (r: Vec<ChatMessage>)
    requires
        messages_cuttable(messages_view(messages@)),
    ensures
        messages_view(r@) == normalized(messages_view(messages@)),
{
    let mut out: Vec<ChatMessage> = Vec::new();
    let mut i: usize = 0;
    while i < messages.len()
        invariant
            i <= messages@.len(),
            messages_cuttable(messages_view(messages@)),
            messages_view(out@) == normalized(messages_view(messages@.subrange(0, i as int))),
        decreases messages@.len() - i,
    {
        let ghost pre = messages_view(messages@.subrange(0, i as int));
        let ghost next = messages_view(messages@.subrange(0, i + 1));
        proof {
            assert(next.drop_last() =~= pre);
            assert(next.last() == messages@[i as int]@);
            assert(messages_view(messages@)[i as int] == messages@[i as int]@);
            assert(cuttable(deduped_text(messages_view(messages@)[i as int].1), MESSAGE_BYTE_LIMIT));
        }
        let m = &messages[i];
        let content = dedupe_text(m.content.as_str());
        let n = out.len();
        let repeat = n > 0 && str_equal(out[n - 1].role.as_str(), m.role.as_str()) && str_equal(
            out[n - 1].content.as_str(),
            content.as_str(),
        );
        proof {
            if n > 0 {
                assert(messages_view(out@).last() == out@[n - 1]@);
            }
        }
        if !repeat {
            let ghost before = out@;
            let compact = compress_text(content.as_str(), MESSAGE_BYTE_LIMIT);
            out.push(ChatMessage { role: m.role.clone(), content: compact });
            proof {
                assert(messages_view(out@) =~= messages_view(before).push(
                    (m.role@, compressed(deduped_text(m.content@), MESSAGE_BYTE_LIMIT)),
                ));
            }
        }
        i = i + 1;
    }
    assert(messages@.subrange(0, messages@.len() as int) =~= messages@);
    out
}

proof fn lemma_trim_front_head(s: Seq<char>)
    ensures
        trim_front(s).len() > 0 ==> !is_space(trim_front(s)[0]),
    decreases s.len(),
{
    if s.len() > 0 && is_space(s[0]) {
        lemma_trim_front_head(s.drop_first());
    }
}

proof fn lemma_trim_back_prefix(t: Seq<char>)
    ensures
        trim_back(t).len() <= t.len(),
        trim_back(t) =~= t.subrange(0, trim_back(t).len() as int),
        trim_back(t).len() > 0 ==> !is_space(trim_back(t).last()),
        t.len() > 0 && !is_space(t[0]) ==> trim_back(t).len() > 0,
    decreases t.len(),
{
    if t.len() > 0 && is_space(t.last()) {
        lemma_trim_back_prefix(t.drop_last());
        assert(t.drop_last().subrange(0, trim_back(t).len() as int) =~= t.subrange(0, trim_back(t).len() as int));
    }
}

proof fn lemma_trim_idempotent(s: Seq<char>)
    ensures
        trim(trim(s)) == trim(s),
{
    let f = trim_front(s);
    let y = trim_back(f);
    lemma_trim_front_head(s);
    lemma_trim_back_prefix(f);
    if y.len() > 0 {
        assert(y[0] == f[0]);
        assert(trim_front(y) == y);
        assert(trim_back(y) == y);
    } else {
        assert(trim_front(y) == y);
        assert(trim_back(y) == y);
    }
}

/// Deduping keeps exactly the trimmed, non-empty texts of its input: each one
/// once, none empty, none with surrounding whitespace.
pub proof fn law_dedupe_keeps_each_trimmed_text_once(items: Seq<Seq<char>>)
    ensures
        dedupe_trimmed(items).no_duplicates(),
        forall|k: int| 0 <= k < dedupe_trimmed(items).len() ==> {
            &&& (#[trigger] dedupe_trimmed(items)[k]).len() > 0
            &&& trim(dedupe_trimmed(items)[k]) == dedupe_trimmed(items)[k]
            &&& exists|i: int| 0 <= i < items.len() && trim(items[i]) == dedupe_trimmed(items)[k]
        },
        forall|i: int| 0 <= i < items.len() && trim(#[trigger] items[i]).len() > 0 ==> dedupe_trimmed(items).contains(trim(items[i])),
    decreases items.len(),
{
    if items.len() > 0 {
        let rest = items.drop_last();
        law_dedupe_keeps_each_trimmed_text_once(rest);
        let prev = dedupe_trimmed(rest);
        let out = dedupe_trimmed(items);
        let t = trim(items.last());
        lemma_trim_idempotent(items.last());
        assert forall|k: int| 0 <= k < out.len() implies {
            &&& (#[trigger] out[k]).len() > 0
            &&& trim(out[k]) == out[k]
            &&& exists|i: int| 0 <= i < items.len() && trim(items[i]) == out[k]
        } by {
            if k < prev.len() {
                assert(out[k] == prev[k]);
                let i = choose|i: int| 0 <= i < rest.len() && trim(rest[i]) == prev[k];
                assert(items[i] == rest[i]);
            } else {
                assert(out[k] == t);
                assert(items[items.len() - 1] == items.last());
            }
        }
        assert forall|i: int| 0 <= i < items.len() && trim(#[trigger] items[i]).len() > 0 implies out.contains(trim(items[i])) by {
            if i < rest.len() {
                assert(items[i] == rest[i]);
                let j = choose|j: int| 0 <= j < prev.len() && prev[j] == trim(rest[i]);
                assert(out[j] == prev[j]);
            } else {
                if !prev.contains(t) {
                    assert(out[prev.len() as int] == t);
                }
            }
        }
    }
}

proof fn lemma_encode_concat(a: Seq<char>, b: Seq<char>)
    ensures
        encode_utf8(a + b) == encode_utf8(a) + encode_utf8(b),
    decreases a.len(),
{
    if a.len() > 0 {
        assert((a + b).drop_first() =~= a.drop_first() + b);
        lemma_encode_concat(a.drop_first(), b);
        assert(encode_utf8(a + b) =~= encode_utf8(a) + encode_utf8(b));
    } else {
        assert(a + b =~= b);
    }
}

/// A compressed text is a prefix of the input text, cut at a character boundary,
/// plus `...`, and never longer than the budget (for a budget of at least three
/// bytes).
pub proof fn law_compress_within_budget(text: Seq<char>, limit: usize)
    requires
        cuttable(text, limit),
    ensures
        limit >= 3 ==> encode_utf8(compressed(text, limit)).len() <= limit,
        encode_utf8(text).len() > limit ==> {
            let head = byte_prefix(text, cut_point(limit));
            &&& text.subrange(0, head.len() as int) == head
            &&& encode_utf8(head).len() == cut_point(limit)
        },
{
    if encode_utf8(text).len() > limit {
        let bytes = encode_utf8(text);
        let cut = cut_point(limit);
        let head = byte_prefix(text, cut);
        vstd::utf8::encode_utf8_valid_utf8(text);
        vstd::utf8::encode_utf8_decode_utf8(text);
        vstd::utf8::decode_utf8_split(bytes, cut);
        vstd::utf8::valid_utf8_split(bytes, cut);
        vstd::utf8::decode_utf8_encode_utf8(bytes.subrange(0, cut));
        assert(text == head + decode_utf8(bytes.subrange(cut, bytes.len() as int)));
        assert(text.subrange(0, head.len() as int) =~= head);
        lemma_encode_concat(head, "..."@);
        reveal_strlit("...");
        let dots = "..."@;
        assert(dots.len() == 3 && dots[0] == '.' && dots[1] == '.' && dots[2] == '.');
        assert(dots.drop_first().drop_first().drop_first() =~= Seq::<char>::empty());
        assert(encode_utf8(dots.drop_first().drop_first().drop_first()).len() == 0);
        assert(encode_utf8(dots.drop_first().drop_first()).len() == 1);
        assert(encode_utf8(dots.drop_first()).len() == 2);
        assert(encode_utf8(dots).len() == 3);
    }
}

} // verus!
