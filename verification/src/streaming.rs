//! Incremental event decoding.
//!
//! A streaming response arrives as bytes cut arbitrarily by the network.
//! The decoder buffers unconsumed bytes, recognizes one event at a time —
//! an event is one or more `data: ` lines closed by a blank line, and a
//! complete block without a data line (a comment, a heartbeat) is no
//! event at all — and maps each event payload, in the provider's own
//! incremental shape, to an incremental response item, a normal end of
//! stream, or a decode error.  The framing layer below is specified
//! exactly; its chunk-boundary invariance is proved in
//! [`lemma_split_invariance`].

use vstd::prelude::*;
use vstd::seq_lib::*;
use vstd::string::*;
use crate::error::ModelError;
use crate::models::{ChatMessage, FunctionCall, MessageRole, StreamingChatChoice, StreamingChatResponse, ToolCall};
use crate::providers::map_stop_reason;
use crate::utils::{get_string, json_as_array, json_as_str, json_as_u64, json_bytes_ok, json_get, parse_json_bytes, str_eq};

verus! {

/// The line-feed byte that delimits lines and, doubled, ends an event.
pub open spec fn nl() -> u8 {
    '\n' as u8
}

/// Position of the first event terminator (two line feeds in a row).
pub open spec fn spec_find_event_end(s: Seq<u8>) -> Option<int>
    decreases s.len(),
{
    if s.len() < 2 {
        None
    } else if s[0] == nl() && s[1] == nl() {
        Some(0int)
    } else {
        match spec_find_event_end(s.skip(1)) {
            Some(i) => Some(i + 1),
            None => None,
        }
    }
}

/// What `spec_find_event_end` finds is the first terminator.
pub proof fn lemma_find_event_end_spec(s: Seq<u8>)
    ensures
        match spec_find_event_end(s) {
            Some(i) => 0 <= i && i + 1 < s.len() && s[i] == nl() && s[i + 1] == nl() && forall|
                j: int,
            |
                0 <= j < i ==> !((#[trigger] s[j]) == nl() && s[j + 1] == nl()),
            None => forall|j: int|
                0 <= j && j + 1 < s.len() ==> !((#[trigger] s[j]) == nl() && s[j + 1] == nl()),
        },
    decreases s.len(),
{
    if s.len() < 2 {
    } else if s[0] == nl() && s[1] == nl() {
    } else {
        lemma_find_event_end_spec(s.skip(1));
        match spec_find_event_end(s.skip(1)) {
            Some(i) => {
                assert(s[i + 1] == s.skip(1)[i]);
                assert(s[i + 2] == s.skip(1)[i + 1]);
                assert forall|j: int| 0 <= j < i + 1 implies !((#[trigger] s[j]) == nl() && s[j + 1]
                    == nl()) by {
                    if j > 0 {
                        assert(s.skip(1)[j - 1] == s[j]);
                        assert(s.skip(1)[j] == s[j + 1]);
                    }
                }
            },
            None => {
                assert forall|j: int| 0 <= j && j + 1 < s.len() implies !((#[trigger] s[j]) == nl()
                    && s[j + 1] == nl()) by {
                    if j > 0 {
                        assert(s.skip(1)[j - 1] == s[j]);
                        assert(s.skip(1)[j] == s[j + 1]);
                    }
                }
            },
        }
    }
}

/// A terminator found in a prefix is the terminator of any extension.
pub proof fn lemma_find_event_end_append(s1: Seq<u8>, s2: Seq<u8>)
    requires
        spec_find_event_end(s1) is Some,
    ensures
        spec_find_event_end(s1 + s2) == spec_find_event_end(s1),
    decreases s1.len(),
{
    if s1.len() < 2 {
    } else if s1[0] == nl() && s1[1] == nl() {
        assert((s1 + s2)[0] == nl() && (s1 + s2)[1] == nl());
    } else {
        assert((s1 + s2).skip(1) =~= s1.skip(1) + s2);
        assert((s1 + s2)[0] == s1[0] && (s1 + s2)[1] == s1[1]);
        lemma_find_event_end_append(s1.skip(1), s2);
    }
}

/// Position of the first line feed.
pub open spec fn spec_find_nl(s: Seq<u8>) -> Option<int>
    decreases s.len(),
{
    if s.len() == 0 {
        None
    } else if s[0] == nl() {
        Some(0int)
    } else {
        match spec_find_nl(s.skip(1)) {
            Some(i) => Some(i + 1),
            None => None,
        }
    }
}

/// What `spec_find_nl` finds is the first line feed.
pub proof fn lemma_find_nl_spec(s: Seq<u8>)
    ensures
        match spec_find_nl(s) {
            Some(i) => 0 <= i < s.len() && s[i] == nl() && forall|j: int|
                0 <= j < i ==> (#[trigger] s[j]) != nl(),
            None => forall|j: int| 0 <= j < s.len() ==> (#[trigger] s[j]) != nl(),
        },
    decreases s.len(),
{
    if s.len() == 0 {
    } else if s[0] == nl() {
    } else {
        lemma_find_nl_spec(s.skip(1));
        match spec_find_nl(s.skip(1)) {
            Some(i) => {
                assert(s[i + 1] == s.skip(1)[i]);
                assert forall|j: int| 0 <= j < i + 1 implies (#[trigger] s[j]) != nl() by {
                    if j > 0 {
                        assert(s.skip(1)[j - 1] == s[j]);
                    }
                }
            },
            None => {
                assert forall|j: int| 0 <= j < s.len() implies (#[trigger] s[j]) != nl() by {
                    if j > 0 {
                        assert(s.skip(1)[j - 1] == s[j]);
                    }
                }
            },
        }
    }
}

/// The lines of an event block, split at single line feeds.
pub open spec fn spec_lines(s: Seq<u8>) -> Seq<Seq<u8>>
    decreases s.len(),
{
    match spec_find_nl(s) {
        None => seq![s],
        Some(i) => if 0 <= i && i + 1 <= s.len() {
            seq![s.take(i)] + spec_lines(s.skip(i + 1))
        } else {
            seq![s]
        },
    }
}

/// The prefix that marks a data line.
pub open spec fn spec_data_prefix() -> Seq<u8> {
    seq!['d' as u8, 'a' as u8, 't' as u8, 'a' as u8, ':' as u8, ' ' as u8]
}

/// Whether a line carries payload.
pub open spec fn spec_is_data_line(line: Seq<u8>) -> bool {
    line.len() >= 6 && line.take(6) == spec_data_prefix()
}

/// The payloads of the data lines among `ls`, in order.
pub open spec fn spec_data_payloads(ls: Seq<Seq<u8>>) -> Seq<Seq<u8>>
    decreases ls.len(),
{
    if ls.len() == 0 {
        Seq::<Seq<u8>>::empty()
    } else if spec_is_data_line(ls[0]) {
        seq![ls[0].skip(6)] + spec_data_payloads(ls.skip(1))
    } else {
        spec_data_payloads(ls.skip(1))
    }
}

/// Payloads of consecutive data lines joined with a line feed.
pub open spec fn spec_join_nl(ps: Seq<Seq<u8>>) -> Seq<u8>
    decreases ps.len(),
{
    if ps.len() == 0 {
        Seq::<u8>::empty()
    } else if ps.len() == 1 {
        ps[0]
    } else {
        ps[0] + seq![nl()] + spec_join_nl(ps.skip(1))
    }
}

/// The payload of one event block: its data lines' payloads, joined.
pub open spec fn spec_payload(block: Seq<u8>) -> Seq<u8> {
    spec_join_nl(spec_data_payloads(spec_lines(block)))
}

/// The payloads of the complete events in `s`, in order.
pub open spec fn spec_events(s: Seq<u8>) -> Seq<Seq<u8>>
    decreases s.len(),
{
    match spec_find_event_end(s) {
        None => Seq::<Seq<u8>>::empty(),
        Some(i) => if 0 <= i && i + 2 <= s.len() {
            seq![spec_payload(s.take(i))] + spec_events(s.skip(i + 2))
        } else {
            Seq::<Seq<u8>>::empty()
        },
    }
}

/// What remains of `s` after its complete events are removed.
pub open spec fn spec_leftover(s: Seq<u8>) -> Seq<u8>
    decreases s.len(),
{
    match spec_find_event_end(s) {
        None => s,
        Some(i) => if 0 <= i && i + 2 <= s.len() {
            spec_leftover(s.skip(i + 2))
        } else {
            s
        },
    }
}

/// Law: chunk-boundary invariance of the framing.  However an input is cut
/// into two reads, decoding the first read and then the second (carrying
/// the first read's leftover in the buffer) yields exactly the events and
/// the leftover of decoding the whole input at once.  Split at every byte
/// offset in turn, this says the emitted event sequence does not depend on
/// where the network cut the stream.
pub proof fn lemma_split_invariance(s1: Seq<u8>, s2: Seq<u8>)
    ensures
        spec_events(s1 + s2) =~~= spec_events(s1) + spec_events(spec_leftover(s1) + s2),
        spec_leftover(s1 + s2) =~= spec_leftover(spec_leftover(s1) + s2),
    decreases s1.len(),
{
    lemma_find_event_end_spec(s1);
    match spec_find_event_end(s1) {
        None => {
            assert(spec_events(s1) =~~= Seq::<Seq<u8>>::empty());
            assert(spec_leftover(s1) =~= s1);
            assert(spec_events(s1) + spec_events(s1 + s2) =~~= spec_events(s1 + s2));
        },
        Some(i) => {
            lemma_find_event_end_append(s1, s2);
            assert((s1 + s2).take(i) =~= s1.take(i));
            assert((s1 + s2).skip(i + 2) =~= s1.skip(i + 2) + s2);
            lemma_split_invariance(s1.skip(i + 2), s2);
            assert(spec_events(s1 + s2) =~~= seq![spec_payload(s1.take(i))] + spec_events(
                s1.skip(i + 2) + s2,
            ));
            assert(spec_events(s1) + spec_events(spec_leftover(s1) + s2) =~~= seq![
                spec_payload(s1.take(i)),
            ] + (spec_events(s1.skip(i + 2)) + spec_events(spec_leftover(s1.skip(i + 2)) + s2)));
            assert(spec_leftover(s1) =~= spec_leftover(s1.skip(i + 2)));
        },
    }
}

/// One step of `spec_data_payloads` on a list that starts with `line`.
proof fn lemma_data_payloads_cons(line: Seq<u8>, rest: Seq<Seq<u8>>)
    ensures
        spec_data_payloads(seq![line] + rest) == if spec_is_data_line(line) {
            seq![line.skip(6)] + spec_data_payloads(rest)
        } else {
            spec_data_payloads(rest)
        },
{
    let ls = seq![line] + rest;
    assert(ls[0] == line);
    assert(ls.skip(1) =~= rest);
}

/// `spec_data_payloads` of a single line.
proof fn lemma_data_payloads_single(line: Seq<u8>)
    ensures
        spec_data_payloads(seq![line]) == if spec_is_data_line(line) {
            seq![line.skip(6)]
        } else {
            Seq::<Seq<u8>>::empty()
        },
{
    lemma_data_payloads_cons(line, Seq::<Seq<u8>>::empty());
    assert(seq![line] + Seq::<Seq<u8>>::empty() =~= seq![line]);
    assert(spec_data_payloads(Seq::<Seq<u8>>::empty()) == Seq::<Seq<u8>>::empty());
    if spec_is_data_line(line) {
        assert(seq![line.skip(6)] + Seq::<Seq<u8>>::empty() =~= seq![line.skip(6)]);
    }
}

/// One step of `spec_join_nl` on a list that starts with `p`.
proof fn lemma_join_nl_cons(p: Seq<u8>, rest: Seq<Seq<u8>>)
    ensures
        spec_join_nl(seq![p] + rest) == if rest.len() == 0 {
            p
        } else {
            p + seq![nl()] + spec_join_nl(rest)
        },
{
    let ps = seq![p] + rest;
    assert(ps[0] == p);
    assert(ps.skip(1) =~= rest);
    if ps.len() == 1 {
        assert(spec_join_nl(ps) == ps[0]);
    }
}

// ---------------------------------------------------------------------------
// Executable framing
// ---------------------------------------------------------------------------

/// Scans the buffer for the first event terminator.
fn find_event_end(buf: &Vec<u8>) -> (r: Option<usize>)
    ensures
        match r {
            Some(i) => spec_find_event_end(buf@) == Some(i as int),
            None => spec_find_event_end(buf@) is None,
        },
{
    if buf.len() < 2 {
        return None;
    }
    let mut i: usize = 0;
    while i < buf.len() - 1
        invariant
            buf@.len() >= 2,
            i + 1 <= buf@.len(),
            forall|j: int| 0 <= j < i ==> !((#[trigger] buf@[j]) == nl() && buf@[j + 1] == nl()),
        decreases buf@.len() - i,
    {
        if buf[i] == '\n' as u8 && buf[i + 1] == '\n' as u8 {
            proof {
                lemma_find_event_end_spec(buf@);
                match spec_find_event_end(buf@) {
                    Some(k) => {
                        if k < i {
                            assert(!(buf@[k] == nl() && buf@[k + 1] == nl()));
                        }
                        if k > i {
                            assert(!(buf@[i as int] == nl() && buf@[i + 1] == nl()));
                        }
                    },
                    None => {
                        assert(!(buf@[i as int] == nl() && buf@[i + 1] == nl()));
                    },
                }
            }
            return Some(i);
        }
        i = i + 1;
    }
    proof {
        lemma_find_event_end_spec(buf@);
        match spec_find_event_end(buf@) {
            Some(k) => {
                assert(!(buf@[k] == nl() && buf@[k + 1] == nl()));
            },
            None => {},
        }
    }
    None
}

/// Scans `buf[from..end]` for the first line feed.
fn find_nl_in(buf: &Vec<u8>, from: usize, end: usize) -> (r: Option<usize>)
    requires
        from <= end <= buf@.len(),
    ensures
        match r {
            Some(k) => from <= k < end && spec_find_nl(
                buf@.subrange(from as int, end as int),
            ) == Some(k - from),
            None => spec_find_nl(buf@.subrange(from as int, end as int)) is None,
        },
{
    let mut i: usize = from;
    while i < end
        invariant
            from <= i <= end <= buf@.len(),
            forall|j: int| from <= j < i ==> (#[trigger] buf@[j]) != nl(),
        decreases end - i,
    {
        if buf[i] == '\n' as u8 {
            proof {
                let sub = buf@.subrange(from as int, end as int);
                lemma_find_nl_spec(sub);
                assert(sub[i - from] == buf@[i as int]);
                match spec_find_nl(sub) {
                    Some(k) => {
                        if k < i - from {
                            assert(sub[k] == buf@[from + k]);
                        }
                    },
                    None => {},
                }
            }
            return Some(i);
        }
        i = i + 1;
    }
    proof {
        let sub = buf@.subrange(from as int, end as int);
        lemma_find_nl_spec(sub);
        match spec_find_nl(sub) {
            Some(k) => {
                assert(sub[k] == buf@[from + k]);
            },
            None => {},
        }
    }
    None
}

/// Whether `buf[pos..end]` starts with the data-line prefix.
fn is_data_line_at(buf: &Vec<u8>, pos: usize, end: usize) -> (r: bool)
    requires
        pos <= end <= buf@.len(),
    ensures
        r == spec_is_data_line(buf@.subrange(pos as int, end as int)),
{
    let ghost sub = buf@.subrange(pos as int, end as int);
    if end - pos < 6 {
        return false;
    }
    let r = buf[pos] == 'd' as u8 && buf[pos + 1] == 'a' as u8 && buf[pos + 2] == 't' as u8
        && buf[pos + 3] == 'a' as u8 && buf[pos + 4] == ':' as u8 && buf[pos + 5] == ' ' as u8;
    proof {
        assert(sub.take(6)[0] == buf@[pos as int]);
        assert(sub.take(6)[1] == buf@[pos + 1]);
        assert(sub.take(6)[2] == buf@[pos + 2]);
        assert(sub.take(6)[3] == buf@[pos + 3]);
        assert(sub.take(6)[4] == buf@[pos + 4]);
        assert(sub.take(6)[5] == buf@[pos + 5]);
        if r {
            assert(sub.take(6) =~= spec_data_prefix());
        }
    }
    r
}

/// Copies `buf[from..to]` out of the buffer.
fn copy_range(buf: &Vec<u8>, from: usize, to: usize) -> (r: Vec<u8>)
    requires
        from <= to <= buf@.len(),
    ensures
        r@ == buf@.subrange(from as int, to as int),
{
    vstd::slice::slice_to_vec(vstd::slice::slice_subrange(buf.as_slice(), from, to))
}

/// The payload of the block `buf[pos..end]`, and whether the block held
/// any data line at all.
fn payload_from(buf: &Vec<u8>, pos: usize, end: usize) -> (r: (Vec<u8>, bool))
    requires
        pos <= end <= buf@.len(),
    ensures
        r.0@ == spec_payload(buf@.subrange(pos as int, end as int)),
        r.1 == (spec_data_payloads(spec_lines(buf@.subrange(pos as int, end as int))).len() > 0),
    decreases end - pos,
{
    let ghost sub = buf@.subrange(pos as int, end as int);
    match find_nl_in(buf, pos, end) {
        None => {
            proof {
                assert(spec_lines(sub) =~= seq![sub]);
                lemma_data_payloads_single(sub);
            }
            if is_data_line_at(buf, pos, end) {
                let p = copy_range(buf, pos + 6, end);
                proof {
                    assert(spec_data_payloads(spec_lines(sub)) == seq![sub.skip(6)]);
                    assert(spec_join_nl(seq![sub.skip(6)]) == sub.skip(6));
                    assert(p@ =~= sub.skip(6));
                }
                (p, true)
            } else {
                let empty: Vec<u8> = Vec::new();
                proof {
                    assert(spec_data_payloads(spec_lines(sub)) == Seq::<Seq<u8>>::empty());
                    assert(empty@ =~= spec_payload(sub));
                }
                (empty, false)
            }
        },
        Some(k) => {
            let (mut rest, rest_has) = payload_from(buf, k + 1, end);
            let ghost line = buf@.subrange(pos as int, k as int);
            let ghost restsub = buf@.subrange(k + 1, end as int);
            proof {
                assert(sub.take(k - pos) =~= line);
                assert(sub.skip(k - pos + 1) =~= restsub);
                assert(spec_lines(sub) == seq![line] + spec_lines(restsub));
                lemma_data_payloads_cons(line, spec_lines(restsub));
            }
            if is_data_line_at(buf, pos, k) {
                let mut p = copy_range(buf, pos + 6, k);
                proof {
                    assert(p@ =~= line.skip(6));
                    assert(spec_data_payloads(spec_lines(sub)) == seq![line.skip(6)]
                        + spec_data_payloads(spec_lines(restsub)));
                    lemma_join_nl_cons(line.skip(6), spec_data_payloads(spec_lines(restsub)));
                }
                if rest_has {
                    p.push('\n' as u8);
                    p.append(&mut rest);
                    proof {
                        assert(p@ =~= spec_payload(sub));
                    }
                } else {
                    proof {
                        assert(spec_data_payloads(spec_lines(restsub)).len() == 0);
                        assert(p@ =~= spec_payload(sub));
                    }
                }
                (p, true)
            } else {
                proof {
                    assert(spec_data_payloads(spec_lines(sub)) == spec_data_payloads(
                        spec_lines(restsub),
                    ));
                }
                (rest, rest_has)
            }
        },
    }
}

/// The payload that ends a stream normally.
pub open spec fn spec_sentinel() -> Seq<u8> {
    seq!['[' as u8, 'D' as u8, 'O' as u8, 'N' as u8, 'E' as u8, ']' as u8]
}

/// Whether a payload is exactly the `[DONE]` sentinel.
fn is_sentinel(p: &Vec<u8>) -> (r: bool)
    ensures
        r == (p@ == spec_sentinel()),
{
    if p.len() != 6 {
        return false;
    }
    let r = p[0] == '[' as u8 && p[1] == 'D' as u8 && p[2] == 'O' as u8 && p[3] == 'N' as u8 && p[4]
        == 'E' as u8 && p[5] == ']' as u8;
    proof {
        if r {
            assert(p@ =~= spec_sentinel());
        } else {
            if p@ == spec_sentinel() {
                assert(p@[0] == '[' as u8);
                assert(p@[1] == 'D' as u8);
                assert(p@[2] == 'O' as u8);
                assert(p@[3] == 'N' as u8);
                assert(p@[4] == 'E' as u8);
                assert(p@[5] == ']' as u8);
            }
        }
    }
    r
}

/// Whether an event block carries any data line.  A block without one —
/// an SSE comment, a heartbeat, a stray blank-line pair — is not an
/// event of the protocol and is invisible to the consumer.
pub open spec fn spec_has_data(block: Seq<u8>) -> bool {
    spec_data_payloads(spec_lines(block)).len() > 0
}

/// The buffer with its leading complete data-less blocks removed.
pub open spec fn spec_drop_comment_events(s: Seq<u8>) -> Seq<u8>
    decreases s.len(),
{
    match spec_find_event_end(s) {
        None => s,
        Some(i) => if 0 <= i && i + 2 <= s.len() {
            if spec_has_data(s.take(i)) {
                s
            } else {
                spec_drop_comment_events(s.skip(i + 2))
            }
        } else {
            s
        },
    }
}

/// The invariance law read for one concrete cut: decoding the bytes up to
/// `cut` and then the rest, leftover carried over, emits exactly the
/// events of the whole input.  Quantified over `cut`, this is invariance
/// over every possible byte offset.
pub proof fn lemma_split_at_offset(s: Seq<u8>, cut: int)
    requires
        0 <= cut <= s.len(),
    ensures
        spec_events(s) =~~= spec_events(s.take(cut)) + spec_events(
            spec_leftover(s.take(cut)) + s.skip(cut),
        ),
{
    assert(s =~= s.take(cut) + s.skip(cut));
    lemma_split_invariance(s.take(cut), s.skip(cut));
}

// ---------------------------------------------------------------------------
// Payload to canonical chunk
// ---------------------------------------------------------------------------

/// The role a wire string names; anything unrecognized is an assistant
/// delta.
pub open spec fn spec_role_of(s: Seq<char>) -> MessageRole {
    if s == "system"@ {
        MessageRole::System
    } else if s == "user"@ {
        MessageRole::User
    } else if s == "tool"@ {
        MessageRole::Tool
    } else {
        MessageRole::Assistant
    }
}

fn role_from_str(s: &str) -> (r: MessageRole)
    ensures
        r == spec_role_of(s@),
{
    if str_eq(s, "system") {
        MessageRole::System
    } else if str_eq(s, "user") {
        MessageRole::User
    } else if str_eq(s, "tool") {
        MessageRole::Tool
    } else {
        MessageRole::Assistant
    }
}

/// The tool calls carried by a delta, with absent subfields left empty.
fn tool_calls_from_value(v: &serde_json::Value) -> Option<Vec<ToolCall>> {
    match json_as_array(v) {
        None => None,
        Some(arr) => {
            let mut out: Vec<ToolCall> = Vec::new();
            let mut i: usize = 0;
            while i < arr.len()
                decreases arr.len() - i,
            {
                let el = &arr[i];
                let id = match get_string(el, "id") {
                    Some(s) => s,
                    None => String::new(),
                };
                let call_type = match get_string(el, "type") {
                    Some(s) => s,
                    None => String::from_str("function"),
                };
                let (name, arguments) = match json_get(el, "function") {
                    Some(f) => {
                        let n = match get_string(f, "name") {
                            Some(s) => s,
                            None => String::new(),
                        };
                        let a = match get_string(f, "arguments") {
                            Some(s) => s,
                            None => String::new(),
                        };
                        (n, a)
                    },
                    None => (String::new(), String::new()),
                };
                out.push(ToolCall { id, call_type, function: FunctionCall { name, arguments } });
                i = i + 1;
            }
            Some(out)
        },
    }
}

/// The delta message of one streaming choice.  Deltas often omit the role
/// and the content; an absent role reads as assistant, absent content as
/// empty.
fn delta_from_value(v: &serde_json::Value) -> ChatMessage {
    let role = match json_get(v, "role") {
        Some(rv) => match json_as_str(rv) {
            Some(s) => role_from_str(s.as_str()),
            None => MessageRole::Assistant,
        },
        None => MessageRole::Assistant,
    };
    let content = match get_string(v, "content") {
        Some(s) => s,
        None => String::new(),
    };
    let tool_calls = match json_get(v, "tool_calls") {
        Some(tv) => tool_calls_from_value(tv),
        None => None,
    };
    ChatMessage {
        role,
        content,
        name: get_string(v, "name"),
        tool_calls,
        tool_call_id: get_string(v, "tool_call_id"),
    }
}

/// One streaming choice.  The index is mandatory, as in the unary shape.
fn choice_from_value(v: &serde_json::Value) -> (r: Result<StreamingChatChoice, ModelError>)
    ensures
        r matches Err(e) ==> e is Serialization,
{
    let index64 = match json_get(v, "index") {
        Some(iv) => match json_as_u64(iv) {
            Some(n) => n,
            None => {
                return Err(
                    ModelError::Serialization(String::from_str("choice index is not a number")),
                );
            },
        },
        None => {
            return Err(ModelError::Serialization(String::from_str("choice without an index")));
        },
    };
    if index64 > u32::MAX as u64 {
        return Err(ModelError::Serialization(String::from_str("choice index out of range")));
    }
    let delta = match json_get(v, "delta") {
        Some(dv) => Some(delta_from_value(dv)),
        None => None,
    };
    Ok(
        StreamingChatChoice {
            index: index64 as u32,
            delta,
            finish_reason: get_string(v, "finish_reason"),
        },
    )
}

/// Maps one parsed event payload into the canonical incremental shape.
/// The identifying fields and the choice list are mandatory; a payload
/// without them is a decode error, never a silently skipped event.
fn chunk_from_value(v: &serde_json::Value) -> (r: Result<StreamingChatResponse, ModelError>)
    ensures
        r matches Err(e) ==> e is Serialization,
{
    let id = match get_string(v, "id") {
        Some(s) => s,
        None => {
            return Err(ModelError::Serialization(String::from_str("event without an id")));
        },
    };
    let object = match get_string(v, "object") {
        Some(s) => s,
        None => {
            return Err(ModelError::Serialization(String::from_str("event without an object")));
        },
    };
    let created = match json_get(v, "created") {
        Some(cv) => match json_as_u64(cv) {
            Some(n) => n,
            None => {
                return Err(
                    ModelError::Serialization(String::from_str("event creation time is not a number")),
                );
            },
        },
        None => {
            return Err(
                ModelError::Serialization(String::from_str("event without a creation time")),
            );
        },
    };
    let model = match get_string(v, "model") {
        Some(s) => s,
        None => {
            return Err(ModelError::Serialization(String::from_str("event without a model")));
        },
    };
    let choices_value = match json_get(v, "choices") {
        Some(cv) => cv,
        None => {
            return Err(ModelError::Serialization(String::from_str("event without choices")));
        },
    };
    let choices_arr = match json_as_array(choices_value) {
        Some(a) => a,
        None => {
            return Err(ModelError::Serialization(String::from_str("event choices are not a list")));
        },
    };
    let mut choices: Vec<StreamingChatChoice> = Vec::new();
    let mut i: usize = 0;
    while i < choices_arr.len()
        decreases choices_arr.len() - i,
    {
        match choice_from_value(&choices_arr[i]) {
            Ok(c) => choices.push(c),
            Err(e) => {
                return Err(e);
            },
        }
        i = i + 1;
    }
    Ok(StreamingChatResponse { id, object, created, model, choices })
}

/// What one parsed Anthropic stream event means for the sequence.
enum AnthropicParsed {
    /// One canonical item, with the message id and model to carry
    /// forward (Anthropic sends them only in the opening event).
    Chunk(StreamingChatResponse, String, String),
    /// The message ended: the sequence is over.
    Stop,
}

/// Maps one Anthropic-native stream event into the canonical incremental
/// shape.  `message_start` supplies the id and the model that later
/// events omit; text deltas become content deltas; `message_delta`
/// carries the stop reason, mapped to its canonical name; `message_stop`
/// ends the sequence; a `ping` or an unknown event kind is an item with
/// no choices; an `error` event surfaces as a `Provider` error.
fn anthropic_event_from_value(
    v: &serde_json::Value,
    stream_id: String,
    stream_model: String,
) -> (r: Result<AnthropicParsed, ModelError>)
    ensures
        r matches Err(e) ==> e is Serialization || e is Provider,
{
    let kind = match get_string(v, "type") {
        Some(s) => s,
        None => {
            return Err(ModelError::Serialization(String::from_str("event without a type")));
        },
    };
    if str_eq(kind.as_str(), "message_stop") {
        return Ok(AnthropicParsed::Stop);
    }
    if str_eq(kind.as_str(), "error") {
        let message = match json_get(v, "error") {
            Some(e) => match get_string(e, "message") {
                Some(s) => s,
                None => String::new(),
            },
            None => String::new(),
        };
        return Err(ModelError::Provider(message));
    }
    if str_eq(kind.as_str(), "message_start") {
        let (id, model) = match json_get(v, "message") {
            Some(message) => {
                let id = match get_string(message, "id") {
                    Some(s) => s,
                    None => stream_id,
                };
                let model = match get_string(message, "model") {
                    Some(s) => s,
                    None => stream_model,
                };
                (id, model)
            },
            None => (stream_id, stream_model),
        };
        let delta = ChatMessage {
            role: MessageRole::Assistant,
            content: String::new(),
            name: None,
            tool_calls: None,
            tool_call_id: None,
        };
        let choice = StreamingChatChoice { index: 0, delta: Some(delta), finish_reason: None };
        let mut choices: Vec<StreamingChatChoice> = Vec::new();
        choices.push(choice);
        let chunk = StreamingChatResponse {
            id: id.clone(),
            object: String::from_str("chat.completion.chunk"),
            created: 0,
            model: model.clone(),
            choices,
        };
        return Ok(AnthropicParsed::Chunk(chunk, id, model));
    }
    if str_eq(kind.as_str(), "content_block_start") || str_eq(kind.as_str(), "content_block_delta")
    {
        let index64: u64 = match json_get(v, "index") {
            Some(iv) => match json_as_u64(iv) {
                Some(n) => n,
                None => 0,
            },
            None => 0,
        };
        if index64 > u32::MAX as u64 {
            return Err(ModelError::Serialization(String::from_str("choice index out of range")));
        }
        let inner = if str_eq(kind.as_str(), "content_block_start") {
            json_get(v, "content_block")
        } else {
            json_get(v, "delta")
        };
        let text = match inner {
            Some(block) => match get_string(block, "text") {
                Some(s) => s,
                None => String::new(),
            },
            None => String::new(),
        };
        let delta = ChatMessage {
            role: MessageRole::Assistant,
            content: text,
            name: None,
            tool_calls: None,
            tool_call_id: None,
        };
        let choice = StreamingChatChoice {
            index: index64 as u32,
            delta: Some(delta),
            finish_reason: None,
        };
        let mut choices: Vec<StreamingChatChoice> = Vec::new();
        choices.push(choice);
        let chunk = StreamingChatResponse {
            id: stream_id.clone(),
            object: String::from_str("chat.completion.chunk"),
            created: 0,
            model: stream_model.clone(),
            choices,
        };
        return Ok(AnthropicParsed::Chunk(chunk, stream_id, stream_model));
    }
    if str_eq(kind.as_str(), "message_delta") {
        let finish_reason: Option<String> = match json_get(v, "delta") {
            Some(delta) => match get_string(delta, "stop_reason") {
                Some(s) => Some(map_stop_reason(s.as_str())),
                None => None,
            },
            None => None,
        };
        let choice = StreamingChatChoice { index: 0, delta: None, finish_reason };
        let mut choices: Vec<StreamingChatChoice> = Vec::new();
        choices.push(choice);
        let chunk = StreamingChatResponse {
            id: stream_id.clone(),
            object: String::from_str("chat.completion.chunk"),
            created: 0,
            model: stream_model.clone(),
            choices,
        };
        return Ok(AnthropicParsed::Chunk(chunk, stream_id, stream_model));
    }
    // a ping, a content_block_stop, or an event kind added later: nothing
    // for the consumer, but never a silently dropped failure
    let chunk = StreamingChatResponse {
        id: stream_id.clone(),
        object: String::from_str("chat.completion.chunk"),
        created: 0,
        model: stream_model.clone(),
        choices: Vec::new(),
    };
    Ok(AnthropicParsed::Chunk(chunk, stream_id, stream_model))
}

// ---------------------------------------------------------------------------
// The decoder
// ---------------------------------------------------------------------------

/// What one decoding step produced.
#[derive(Debug)]
pub enum DecodeStep {
    /// No complete event is buffered; more bytes are needed.
    Pending,
    /// One incremental response item.
    Item(StreamingChatResponse),
    /// The sequence ended normally (sentinel seen, or already over).
    Done,
    /// The sequence ended with a decode error; nothing follows it.
    Error(ModelError),
}

/// Whether the decoder still produces items.
#[derive(Debug, Clone, Copy, PartialEq, Eq, Structural)]
pub enum DecoderPhase {
    Active,
    Ended,
}

/// Which provider-native incremental shape the payloads carry.
#[derive(Debug, Clone, Copy, PartialEq, Eq, Structural)]
pub enum WireShape {
    OpenAi,
    Anthropic,
}

/// Decodes a stream of network reads into incremental response items.
///
/// Bytes go in through [`feed`](StreamDecoder::feed) exactly as they
/// arrived; [`next_step`](StreamDecoder::next_step) takes one complete
/// event off the front of the buffer at a time.  Once a step returns
/// `Done` or `Error` the sequence is over: every later step returns
/// `Done`, so an error is always the final word and nothing is ever
/// yielded after it.
#[derive(Debug)]
pub struct StreamDecoder {
    pub buffer: Vec<u8>,
    pub phase: DecoderPhase,
    pub shape: WireShape,
    /// The message id the stream opened with, carried onto events that
    /// omit it (the Anthropic shape sends it only once).
    pub stream_id: String,
    /// The model the stream opened with, carried likewise.
    pub stream_model: String,
}

impl StreamDecoder {
    /// A decoder for the OpenAI-style incremental shape.
    pub fn new() -> (r: Self)
        ensures
            r.buffer@ == Seq::<u8>::empty(),
            r.phase is Active,
            r.shape is OpenAi,
    {
        StreamDecoder::new_for(WireShape::OpenAi)
    }

    /// A decoder for the given provider's incremental shape.
    pub fn new_for(shape: WireShape) -> (r: Self)
        ensures
            r.buffer@ == Seq::<u8>::empty(),
            r.phase is Active,
            r.shape == shape,
    {
        StreamDecoder {
            buffer: Vec::new(),
            phase: DecoderPhase::Active,
            shape,
            stream_id: String::new(),
            stream_model: String::new(),
        }
    }

    /// Takes one network read into the buffer, exactly as it arrived.
    pub fn feed(&mut self, bytes: &[u8])
        ensures
            final(self).buffer@ == old(self).buffer@ + bytes@,
            final(self).phase == old(self).phase,
            final(self).shape == old(self).shape,
    {
        self.buffer.extend_from_slice(bytes);
        proof {
            assert(self.buffer@ =~= old(self).buffer@ + bytes@);
        }
    }

    /// Decodes the next buffered event, if a complete one is present.
    ///
    /// A complete block without a `data:` line — an SSE comment, a
    /// heartbeat, a stray blank-line pair — is no event and is skipped.
    /// An event whose payload is the sentinel ends the sequence normally;
    /// a payload that is not well-formed JSON (or lacks the mandatory
    /// fields) ends it with a decode error; any other payload is one
    /// item — except that under the Anthropic shape the `message_stop`
    /// event, which that protocol uses in place of a sentinel, also ends
    /// the sequence normally.
    pub fn next_step(&mut self) -> (step: DecodeStep)
        ensures
            final(self).shape == old(self).shape,
            old(self).phase is Ended ==> step is Done && final(self).buffer@ == old(self).buffer@
                && final(self).phase is Ended,
            old(self).phase is Active ==> ({
                let significant = spec_drop_comment_events(old(self).buffer@);
                match spec_find_event_end(significant) {
                    None => step is Pending && final(self).buffer@ == significant
                        && final(self).phase is Active,
                    Some(i) => ({
                        let payload = spec_payload(significant.take(i));
                        &&& final(self).buffer@ == significant.skip(i + 2)
                        &&& payload == spec_sentinel() ==> step is Done
                            && final(self).phase is Ended
                        &&& (payload != spec_sentinel() && !json_bytes_ok(payload)) ==> step
                            is Error && final(self).phase is Ended
                        &&& (payload != spec_sentinel() && json_bytes_ok(payload)) ==> (step
                            is Item || step is Error || step is Done)
                        &&& (old(self).shape is OpenAi && payload != spec_sentinel()
                            && json_bytes_ok(payload)) ==> !(step is Done)
                        &&& step is Item ==> final(self).phase is Active && json_bytes_ok(payload)
                            && payload != spec_sentinel()
                        &&& step is Error ==> final(self).phase is Ended
                        &&& step is Done ==> final(self).phase is Ended
                        &&& step matches DecodeStep::Error(e) ==> e is Serialization || e
                            is Provider
                    }),
                }
            }),
    {
        match self.phase {
            DecoderPhase::Ended => DecodeStep::Done,
            DecoderPhase::Active => {
                loop
                    invariant
                        old(self).phase is Active,
                        self.phase is Active,
                        self.shape == old(self).shape,
                        spec_drop_comment_events(old(self).buffer@) == spec_drop_comment_events(
                            self.buffer@,
                        ),
                    decreases self.buffer.len(),
                {
                    match find_event_end(&self.buffer) {
                        None => {
                            return DecodeStep::Pending;
                        },
                        Some(i) => {
                            proof {
                                lemma_find_event_end_spec(self.buffer@);
                            }
                            let full_len = self.buffer.len();
                            let (payload, has_data) = payload_from(&self.buffer, 0, i);
                            let ghost pre = self.buffer@;
                            proof {
                                assert(pre.subrange(0, i as int) =~= pre.take(i as int));
                            }
                            let rest = self.buffer.split_off(if i + 2 <= full_len {
                                i + 2
                            } else {
                                full_len
                            });
                            self.buffer = rest;
                            proof {
                                assert(pre.subrange(i + 2, pre.len() as int) =~= pre.skip(i + 2));
                            }
                            if !has_data {
                                proof {
                                    assert(spec_drop_comment_events(pre)
                                        == spec_drop_comment_events(self.buffer@));
                                }
                            } else {
                                proof {
                                    assert(spec_drop_comment_events(pre) == pre);
                                }
                                if is_sentinel(&payload) {
                                    self.phase = DecoderPhase::Ended;
                                    return DecodeStep::Done;
                                }
                                match parse_json_bytes(payload.as_slice()) {
                                    Err(e) => {
                                        self.phase = DecoderPhase::Ended;
                                        return DecodeStep::Error(e);
                                    },
                                    Ok(value) => match self.shape {
                                        WireShape::OpenAi => match chunk_from_value(&value) {
                                            Ok(chunk) => {
                                                return DecodeStep::Item(chunk);
                                            },
                                            Err(e) => {
                                                self.phase = DecoderPhase::Ended;
                                                return DecodeStep::Error(e);
                                            },
                                        },
                                        WireShape::Anthropic => {
                                            let sid = self.stream_id.clone();
                                            let smodel = self.stream_model.clone();
                                            match anthropic_event_from_value(&value, sid, smodel) {
                                                Ok(AnthropicParsed::Stop) => {
                                                    self.phase = DecoderPhase::Ended;
                                                    return DecodeStep::Done;
                                                },
                                                Ok(AnthropicParsed::Chunk(chunk, nid, nmodel)) => {
                                                    self.stream_id = nid;
                                                    self.stream_model = nmodel;
                                                    return DecodeStep::Item(chunk);
                                                },
                                                Err(e) => {
                                                    self.phase = DecoderPhase::Ended;
                                                    return DecodeStep::Error(e);
                                                },
                                            }
                                        },
                                    },
                                }
                            }
                        },
                    }
                }
            },
        }
    }

    /// Reports the end of the connection.  If the sequence had not ended —
    /// no sentinel was seen — the caller gets the mandatory final error
    /// item; an already-ended sequence gets nothing.
    pub fn close(&mut self) -> (r: Option<ModelError>)
        ensures
            final(self).phase is Ended,
            final(self).buffer@ == old(self).buffer@,
            final(self).shape == old(self).shape,
            old(self).phase is Active ==> (r matches Some(e) && e matches ModelError::Stream(m)
                && m@ == "disconnected before completion"@),
            old(self).phase is Ended ==> r is None,
    {
        match self.phase {
            DecoderPhase::Active => {
                self.phase = DecoderPhase::Ended;
                Some(ModelError::Stream(String::from_str("disconnected before completion")))
            },
            DecoderPhase::Ended => None,
        }
    }
}

} // verus!
