//! Server-Sent Events framing parser.
//!
//! Bytes are fed in arbitrary slices; complete blank-line-terminated events
//! come out. Field values are decoded as UTF-8, invalid values are skipped
//! for that field only, multiple `data` lines are joined with newlines, and
//! events whose data stayed empty are discarded.

use vstd::prelude::*;

use crate::json::{str_eq, utf8_to_string};

verus! {

use vstd::string::StrSliceExecFns;
use vstd::string::StringExecFns;
use vstd::utf8::valid_utf8;
use vstd::utf8::decode_utf8;

broadcast use vstd::std_specs::vec::group_vec_axioms;

/// Position of the first occurrence of a byte, if any.
pub open spec fn first_byte(s: Seq<u8>, b: u8) -> Option<int>
    decreases s.len(),
{
    if s.len() == 0 {
        None
    } else if s[0] == b {
        Some(0)
    } else {
        match first_byte(s.skip(1), b) {
            None => None,
            Some(i) => Some(i + 1),
        }
    }
}

proof fn lemma_first_byte_at(s: Seq<u8>, b: u8, k: int)
    requires
        0 <= k < s.len(),
        s[k] == b,
        forall|j: int| 0 <= j < k ==> s[j] != b,
    ensures
        first_byte(s, b) == Some(k),
    decreases k,
{
    if k > 0 {
        lemma_first_byte_at(s.skip(1), b, k - 1);
    }
}

proof fn lemma_first_byte_none(s: Seq<u8>, b: u8)
    requires
        forall|j: int| 0 <= j < s.len() ==> s[j] != b,
    ensures
        first_byte(s, b) is None,
    decreases s.len(),
{
    if s.len() > 0 {
        lemma_first_byte_none(s.skip(1), b);
    }
}

/// The found position is in range, holds the byte, and nothing before it does.
pub proof fn lemma_first_byte_props(s: Seq<u8>, b: u8)
    requires
        first_byte(s, b) is Some,
    ensures
        0 <= first_byte(s, b)->0 < s.len(),
        s[first_byte(s, b)->0] == b,
        forall|j: int| 0 <= j < first_byte(s, b)->0 ==> s[j] != b,
    decreases s.len(),
{
    if s.len() > 0 && s[0] != b {
        lemma_first_byte_props(s.skip(1), b);
        let i = first_byte(s, b)->0;
        assert forall|j: int| 0 <= j < i implies s[j] != b by {
            if j > 0 {
                assert(s.skip(1)[j - 1] == s[j]);
            }
        }
    }
}

/// A byte arriving later never changes where the first occurrence is.
pub proof fn lemma_first_byte_extend(s: Seq<u8>, ext: Seq<u8>, b: u8)
    requires
        first_byte(s, b) is Some,
    ensures
        first_byte(s + ext, b) == first_byte(s, b),
    decreases s.len(),
{
    if s.len() > 0 {
        assert((s + ext)[0] == s[0]);
        if s[0] != b {
            lemma_first_byte_extend(s.skip(1), ext, b);
            assert(s.skip(1) + ext =~= (s + ext).skip(1));
        }
    }
}

/// Find the first occurrence of `b` in `buf` at or after `from`.
#[verifier::loop_isolation(false)]
fn find_byte(buf: &[u8], from: usize, b: u8) -> (r: Option<usize>)
    requires
        from <= buf.len(),
    ensures
        match r {
            Some(i) => from <= i < buf@.len() && first_byte(buf@.skip(from as int), b) == Some(
                i - from,
            ),
            None => first_byte(buf@.skip(from as int), b) is None,
        },
{
    let mut i: usize = from;
    while i < buf.len()
        invariant
            from <= i <= buf@.len(),
            forall|j: int| from <= j < i ==> buf@[j] != b,
        decreases buf@.len() - i,
    {
        if buf[i] == b {
            proof {
                let v = buf@.skip(from as int);
                assert(v[i - from] == buf@[i as int]);
                assert forall|j: int| 0 <= j < i - from implies v[j] != b by {
                    assert(v[j] == buf@[j + from]);
                }
                lemma_first_byte_at(v, b, i - from);
            }
            return Some(i);
        }
        i = i + 1;
    }
    proof {
        let v = buf@.skip(from as int);
        assert forall|j: int| 0 <= j < v.len() implies v[j] != b by {
            assert(v[j] == buf@[j + from]);
        }
        lemma_first_byte_none(v, b);
    }
    None
}

/// A line with a trailing carriage return loses it.
pub open spec fn strip_cr(line: Seq<u8>) -> Seq<u8> {
    if line.len() > 0 && line.last() == 13 {
        line.drop_last()
    } else {
        line
    }
}

/// Scratch state of one event under assembly.
pub struct ScratchV {
    pub data: Seq<char>,
    pub event: Seq<char>,
    pub id: Seq<char>,
}

pub open spec fn empty_scratch() -> ScratchV {
    ScratchV { data: Seq::empty(), event: Seq::empty(), id: Seq::empty() }
}

/// The bytes of the `data` field name.
pub open spec fn data_name() -> Seq<u8> {
    seq![100u8, 97u8, 116u8, 97u8]
}

/// The bytes of the `event` field name.
pub open spec fn event_name() -> Seq<u8> {
    seq![101u8, 118u8, 101u8, 110u8, 116u8]
}

/// The bytes of the `id` field name.
pub open spec fn id_name() -> Seq<u8> {
    seq![105u8, 100u8]
}

/// Effect of one non-blank line on the scratch state: a line without a colon
/// is ignored (as is a comment line, whose field name is empty), one leading
/// space after the colon is consumed, a field value that is not UTF-8 is
/// skipped, `data` values are joined with newlines, `event` and `id` values
/// replace, unknown fields are discarded.
pub open spec fn apply_line(sc: ScratchV, line: Seq<u8>) -> ScratchV {
    match first_byte(line, 58) {
        None => sc,
        Some(c) => {
            let name = line.subrange(0, c);
            let vs = if c + 1 < line.len() && line[c + 1] == 32 {
                c + 2
            } else {
                c + 1
            };
            let value = line.subrange(vs, line.len() as int);
            if !valid_utf8(value) {
                sc
            } else {
                let vchars = decode_utf8(value);
                if name == data_name() {
                    ScratchV {
                        data: if sc.data.len() == 0 {
                            vchars
                        } else {
                            sc.data + seq!['\n'] + vchars
                        },
                        ..sc
                    }
                } else if name == event_name() {
                    ScratchV { event: vchars, ..sc }
                } else if name == id_name() {
                    ScratchV { id: vchars, ..sc }
                } else {
                    sc
                }
            }
        },
    }
}

/// Scan of one event block: lines are applied to the scratch state until a
/// blank line; `None` when no blank line has arrived yet. The second
/// component counts the consumed bytes, the blank line included.
pub open spec fn sse_block(buf: Seq<u8>, sc: ScratchV) -> Option<(ScratchV, int)>
    decreases buf.len(),
    via sse_block_decreases
{
    match first_byte(buf, 10) {
        None => None,
        Some(i) => {
            let line = strip_cr(buf.subrange(0, i));
            if line.len() == 0 {
                Some((sc, i + 1))
            } else {
                match sse_block(buf.skip(i + 1), apply_line(sc, line)) {
                    None => None,
                    Some((sc2, c)) => Some((sc2, i + 1 + c)),
                }
            }
        },
    }
}

#[via_fn]
proof fn sse_block_decreases(buf: Seq<u8>, sc: ScratchV) {
    if first_byte(buf, 10) is Some {
        lemma_first_byte_props(buf, 10);
    }
}

/// A completed block consumes at least its blank line and at most the buffer.
pub proof fn lemma_sse_block_consumed(buf: Seq<u8>, sc: ScratchV)
    requires
        sse_block(buf, sc) is Some,
    ensures
        1 <= (sse_block(buf, sc)->0).1 <= buf.len(),
    decreases buf.len(),
{
    lemma_first_byte_props(buf, 10);
    let i = first_byte(buf, 10)->0;
    let line = strip_cr(buf.subrange(0, i));
    if line.len() != 0 {
        lemma_sse_block_consumed(buf.skip(i + 1), apply_line(sc, line));
    }
}

/// The next complete event of the buffer: blocks are scanned from a fresh
/// scratch state, and blocks whose data stayed empty are skipped.
pub open spec fn sse_next(buf: Seq<u8>) -> Option<(ScratchV, int)>
    decreases buf.len(),
    via sse_next_decreases
{
    match sse_block(buf, empty_scratch()) {
        None => None,
        Some((sc, c)) => if sc.data.len() > 0 {
            Some((sc, c))
        } else {
            match sse_next(buf.skip(c)) {
                None => None,
                Some((sc2, c2)) => Some((sc2, c + c2)),
            }
        },
    }
}

#[via_fn]
proof fn sse_next_decreases(buf: Seq<u8>) {
    if sse_block(buf, empty_scratch()) is Some {
        lemma_sse_block_consumed(buf, empty_scratch());
    }
}

/// A complete event consumes at least one byte and at most the buffer.
pub proof fn lemma_sse_next_consumed(buf: Seq<u8>)
    requires
        sse_next(buf) is Some,
    ensures
        1 <= (sse_next(buf)->0).1 <= buf.len(),
    decreases buf.len(),
{
    lemma_sse_block_consumed(buf, empty_scratch());
    let (sc, c) = sse_block(buf, empty_scratch())->0;
    if sc.data.len() == 0 {
        lemma_sse_next_consumed(buf.skip(c));
    }
}

/// Bytes arriving later never change a block that already has its blank line.
pub proof fn lemma_sse_block_extend(buf: Seq<u8>, ext: Seq<u8>, sc: ScratchV)
    requires
        sse_block(buf, sc) is Some,
    ensures
        sse_block(buf + ext, sc) == sse_block(buf, sc),
    decreases buf.len(),
{
    lemma_first_byte_props(buf, 10);
    lemma_first_byte_extend(buf, ext, 10);
    let i = first_byte(buf, 10)->0;
    assert((buf + ext).subrange(0, i) =~= buf.subrange(0, i));
    let line = strip_cr(buf.subrange(0, i));
    if line.len() != 0 {
        lemma_sse_block_extend(buf.skip(i + 1), ext, apply_line(sc, line));
        assert((buf + ext).skip(i + 1) =~= buf.skip(i + 1) + ext);
    }
}

/// SSE completeness, one step: a complete event parses the same however many
/// bytes arrive after it, with the same data and the same consumed length.
pub proof fn lemma_sse_next_prefix_stable(buf: Seq<u8>, ext: Seq<u8>)
    requires
        sse_next(buf) is Some,
    ensures
        sse_next(buf + ext) == sse_next(buf),
    decreases buf.len(),
{
    lemma_sse_block_extend(buf, ext, empty_scratch());
    lemma_sse_block_consumed(buf, empty_scratch());
    let (sc, c) = sse_block(buf, empty_scratch())->0;
    if sc.data.len() == 0 {
        lemma_sse_next_prefix_stable(buf.skip(c), ext);
        assert((buf + ext).skip(c) =~= buf.skip(c) + ext);
    }
}

/// The buffer a parser holds after being fed a sequence of slices in order,
/// starting from `v`.
pub open spec fn feed_all(v: Seq<u8>, pieces: Seq<Seq<u8>>) -> Seq<u8>
    decreases pieces.len(),
{
    if pieces.len() == 0 {
        v
    } else {
        feed_all(v, pieces.drop_last()) + pieces.last()
    }
}

/// SSE completeness: feeding a byte stream in any partition leaves the parser
/// holding exactly the concatenation of the pieces, so by the contract of
/// `next_event` draining produces exactly the events of the whole stream,
/// with identical data, however the stream was split.
pub proof fn lemma_feed_all_flatten(pieces: Seq<Seq<u8>>)
    ensures
        feed_all(Seq::<u8>::empty(), pieces) == pieces.flatten(),
    decreases pieces.len(),
{
    if pieces.len() == 0 {
        assert(pieces.flatten() =~= Seq::<u8>::empty());
        assert(feed_all(Seq::<u8>::empty(), pieces) =~= Seq::<u8>::empty());
    } else {
        lemma_feed_all_flatten(pieces.drop_last());
        pieces.lemma_flatten_and_flatten_alt_are_equivalent();
        pieces.drop_last().lemma_flatten_and_flatten_alt_are_equivalent();
        assert(pieces.flatten_alt() == pieces.drop_last().flatten_alt() + pieces.last());
    }
}

/// All complete events of a buffer, in order.
pub open spec fn sse_events(buf: Seq<u8>) -> Seq<SseEventV>
    decreases buf.len(),
    via sse_events_decreases
{
    match sse_next(buf) {
        None => Seq::empty(),
        Some((sc, c)) => seq![scratch_event(sc)] + sse_events(buf.skip(c)),
    }
}

#[via_fn]
proof fn sse_events_decreases(buf: Seq<u8>) {
    if sse_next(buf) is Some {
        lemma_sse_next_consumed(buf);
    }
}

/// SSE completeness, drained form: when a buffer already holds a complete
/// event, bytes arriving later leave that event untouched and only extend
/// what follows it. Together with `feed`'s contract this says that feeding a
/// byte stream in any partition and draining produces exactly the events of
/// the whole stream, with identical data.
pub proof fn lemma_sse_events_extend(buf: Seq<u8>, ext: Seq<u8>)
    requires
        sse_next(buf) is Some,
    ensures
        sse_events(buf + ext) == seq![scratch_event((sse_next(buf)->0).0)] + sse_events(
            buf.skip((sse_next(buf)->0).1) + ext,
        ),
{
    lemma_sse_next_prefix_stable(buf, ext);
    lemma_sse_next_consumed(buf);
    let (sc, c) = sse_next(buf)->0;
    assert((buf + ext).skip(c) =~= buf.skip(c) + ext);
}

/// A parsed SSE event.
pub struct SseEvent {
    pub event: Option<String>,
    pub data: String,
    pub id: Option<String>,
}

pub struct SseEventV {
    pub event: Option<Seq<char>>,
    pub data: Seq<char>,
    pub id: Option<Seq<char>>,
}

impl View for SseEvent {
    type V = SseEventV;

    open spec fn view(&self) -> SseEventV {
        SseEventV {
            event: match self.event {
                Some(s) => Some(s@),
                None => None,
            },
            data: self.data@,
            id: match self.id {
                Some(s) => Some(s@),
                None => None,
            },
        }
    }
}

/// The event a finished scratch state yields: empty `event` and `id` fields
/// were never set and come out as absent.
pub open spec fn scratch_event(sc: ScratchV) -> SseEventV {
    SseEventV {
        event: if sc.event.len() == 0 {
            None
        } else {
            Some(sc.event)
        },
        data: sc.data,
        id: if sc.id.len() == 0 {
            None
        } else {
            Some(sc.id)
        },
    }
}

/// Line-based SSE parser over an internal byte buffer.
pub struct SseParser {
    pub buffer: Vec<u8>,
    pub consumed: usize,
}

impl SseParser {
    /// The consumed prefix never passes the end of the buffer.
    pub open spec fn wf(&self) -> bool {
        self.consumed <= self.buffer@.len()
    }

    /// The bytes not yet consumed.
    pub open spec fn view(&self) -> Seq<u8> {
        self.buffer@.skip(self.consumed as int)
    }

    /// Create a new parser.
    pub fn new() -> (r: Self)
        ensures
            r.wf(),
            r@ == Seq::<u8>::empty(),
    {
        let r = SseParser { buffer: Vec::new(), consumed: 0 };
        proof {
            assert(r@ =~= Seq::<u8>::empty());
        }
        r
    }

    /// Create a new parser with an initial buffer capacity.
    pub fn with_capacity(cap: usize) -> (r: Self)
        ensures
            r.wf(),
            r@ == Seq::<u8>::empty(),
    {
        let r = SseParser { buffer: Vec::with_capacity(cap), consumed: 0 };
        proof {
            assert(r@ =~= Seq::<u8>::empty());
        }
        r
    }

    /// Drop the consumed prefix, keeping the unconsumed bytes.
    #[verifier::loop_isolation(false)]
    fn compact(&mut self)
        requires
            old(self).wf(),
        ensures
            final(self).wf(),
            final(self)@ == old(self)@,
            final(self).consumed == 0,
    {
        let mut nb: Vec<u8> = Vec::new();
        let mut i: usize = self.consumed;
        while i < self.buffer.len()
            invariant
                old(self).consumed <= i <= self.buffer@.len(),
                self.buffer@ == old(self).buffer@,
                self.consumed == old(self).consumed,
                nb@ == self.buffer@.subrange(self.consumed as int, i as int),
            decreases self.buffer@.len() - i,
        {
            nb.push(self.buffer[i]);
            proof {
                assert(nb@ =~= self.buffer@.subrange(self.consumed as int, i + 1));
            }
            i = i + 1;
        }
        proof {
            assert(nb@ =~= old(self)@);
        }
        self.buffer = nb;
        self.consumed = 0;
        proof {
            assert(self@ =~= self.buffer@);
        }
    }

    /// Feed bytes into the parser. The unconsumed bytes are exactly the old
    /// ones followed by the new slice; the buffer is compacted first when the
    /// consumed prefix has grown past half the buffer and four kibibytes.
    #[verifier::loop_isolation(false)]
    pub fn feed(&mut self, data: &[u8])
        requires
            old(self).wf(),
        ensures
            final(self).wf(),
            final(self)@ == old(self)@ + data@,
    {
        if self.consumed > self.buffer.len() / 2 && self.consumed > 4096 {
            self.compact();
        }
        let ghost mid = self@;
        let mut i: usize = 0;
        while i < data.len()
            invariant
                0 <= i <= data@.len(),
                self.wf(),
                self.consumed <= self.buffer@.len(),
                self@ == mid + data@.take(i as int),
            decreases data@.len() - i,
        {
            let ghost bprev = self.buffer@;
            let ghost vprev = self@;
            self.buffer.push(data[i]);
            proof {
                assert(self.buffer@ == bprev.push(data@[i as int]));
                assert(self@.len() == vprev.len() + 1);
                assert forall|j: int| 0 <= j < self@.len() implies self@[j] == (vprev.push(
                    data@[i as int],
                ))[j] by {
                    assert(self@[j] == self.buffer@[j + self.consumed]);
                }
                assert(self@ =~= vprev.push(data@[i as int]));
                assert(data@.take(i + 1) =~= data@.take(i as int).push(data@[i as int]));
                assert(self@ =~= mid + data@.take(i + 1));
            }
            i = i + 1;
        }
        proof {
            assert(mid + data@.take(data@.len() as int) =~= mid + data@);
        }
    }

    /// Reset the parser to an empty state.
    pub fn reset(&mut self)
        ensures
            final(self).wf(),
            final(self)@ == Seq::<u8>::empty(),
    {
        self.buffer = Vec::new();
        self.consumed = 0;
        proof {
            assert(self@ =~= Seq::<u8>::empty());
        }
    }

    /// Number of unconsumed bytes currently buffered.
    pub fn buffer_len(&self) -> (r: usize)
        requires
            self.wf(),
        ensures
            r == self@.len(),
    {
        self.buffer.len() - self.consumed
    }

    /// Whether a data payload is the terminal sentinel `[DONE]`.
    pub fn is_done(data: &str) -> (r: bool)
        ensures
            r == (data@ == "[DONE]"@),
    {
        str_eq(data, "[DONE]")
    }

    /// Parse the next complete event, consuming it; `None` without consuming
    /// anything when no complete event with data is buffered yet.
    #[verifier::loop_isolation(false)]
    #[verifier::rlimit(60)]
    pub fn next_event(&mut self) -> (r: Option<SseEvent>)
        requires
            old(self).wf(),
        ensures
            final(self).wf(),
            match r {
                None => final(self)@ == old(self)@ && sse_next(old(self)@) is None,
                Some(ev) => {
                    &&& sse_next(old(self)@) is Some
                    &&& ev@ == scratch_event((sse_next(old(self)@)->0).0)
                    &&& final(self)@ == old(self)@.skip((sse_next(old(self)@)->0).1)
                },
            },
    {
        let ghost v0 = self@;
        let ghost c0 = self.consumed as int;
        let mut data_s = String::new();
        let mut event_s = String::new();
        let mut id_s = String::new();
        let mut block_start: usize = self.consumed;
        let mut pos: usize = self.consumed;
        loop
            invariant
                self.wf(),
                self.buffer@ == old(self).buffer@,
                self.consumed == old(self).consumed,
                c0 == self.consumed as int,
                v0 == self@,
                self.consumed <= block_start <= pos <= self.buffer@.len(),
                ({
                    let vb = self.buffer@.skip(block_start as int);
                    let vp = self.buffer@.skip(pos as int);
                    let cur = ScratchV { data: data_s@, event: event_s@, id: id_s@ };
                    &&& (match sse_block(vp, cur) {
                        None => sse_block(vb, empty_scratch()) is None,
                        Some((sc, c)) => sse_block(vb, empty_scratch()) == Some(
                            (sc, c + pos - block_start),
                        ),
                    })
                    &&& (match sse_next(vb) {
                        None => sse_next(v0) is None,
                        Some((sc, c)) => sse_next(v0) == Some((sc, c + block_start - c0)),
                    })
                }),
            decreases self.buffer@.len() - pos,
        {
            let ghost vb = self.buffer@.skip(block_start as int);
            let ghost vp = self.buffer@.skip(pos as int);
            let ghost cur = ScratchV { data: data_s@, event: event_s@, id: id_s@ };
            let nl = find_byte(self.buffer.as_slice(), pos, 10);
            proof {
                if nl is Some {
                    assert(nl->0 < self.buffer@.len());
                    assert(self.buffer@.len() == self.buffer.len());
                }
            }
            match nl {
                None => {
                    proof {
                        assert(sse_block(vp, cur) is None);
                        assert(sse_next(v0) is None);
                    }
                    return None;
                },
                Some(nlpos) => {
                    proof {
                        assert(first_byte(vp, 10) == Some(nlpos - pos));
                    }
                    // the line, with a trailing CR stripped
                    let line_end: usize = if nlpos > pos && self.buffer[nlpos - 1] == 13 {
                        nlpos - 1
                    } else {
                        nlpos
                    };
                    let ghost line = strip_cr(vp.subrange(0, nlpos - pos));
                    proof {
                        assert(vp.subrange(0, nlpos - pos) =~= self.buffer@.subrange(
                            pos as int,
                            nlpos as int,
                        ));
                        if nlpos > pos && self.buffer@[nlpos - 1] == 13 {
                            assert(line =~= self.buffer@.subrange(pos as int, line_end as int));
                        } else {
                            assert(line =~= self.buffer@.subrange(pos as int, line_end as int));
                        }
                    }
                    if line_end == pos {
                        // blank line: the block is complete
                        let ghost cb = nlpos + 1 - block_start;
                        proof {
                            assert(line.len() == 0);
                            assert(sse_block(vp, cur) == Some((cur, nlpos + 1 - pos)));
                            assert(sse_block(vb, empty_scratch()) == Some((cur, cb)));
                        }
                        if !data_s.as_str().is_empty() {
                            proof {
                                assert(sse_next(vb) == Some((cur, cb)));
                                assert(sse_next(v0) == Some((cur, cb + block_start - c0)));
                            }
                            self.consumed = nlpos + 1;
                            let ev = SseEvent {
                                event: if event_s.as_str().is_empty() {
                                    None
                                } else {
                                    Some(event_s)
                                },
                                data: data_s,
                                id: if id_s.as_str().is_empty() {
                                    None
                                } else {
                                    Some(id_s)
                                },
                            };
                            proof {
                                assert(ev@ == scratch_event(cur));
                                assert(self@ =~= v0.skip((sse_next(v0)->0).1));
                            }
                            return Some(ev);
                        }
                        // event without data: discard and scan on
                        proof {
                            let vb2 = self.buffer@.skip(nlpos + 1);
                            assert(vb2 =~= vb.skip(cb));
                            if sse_next(vb) is Some {
                                assert(sse_next(vb2) is Some ==> sse_next(vb) == Some(
                                    (
                                        (sse_next(vb2)->0).0,
                                        (sse_next(vb2)->0).1 + cb,
                                    ),
                                ));
                            }
                        }
                        data_s = String::new();
                        event_s = String::new();
                        id_s = String::new();
                        block_start = nlpos + 1;
                        pos = nlpos + 1;
                    } else {
                        // field line: apply it to the scratch state
                        let ghost sc2 = apply_line(cur, line);
                        proof {
                            assert(line.len() != 0);
                            let vp2 = self.buffer@.skip(nlpos + 1);
                            assert(vp2 =~= vp.skip(nlpos + 1 - pos));
                            assert(sse_block(vp, cur) == (match sse_block(vp2, sc2) {
                                None => None,
                                Some((sc3, c3)) => Some((sc3, c3 + (nlpos + 1 - pos))),
                            }));
                        }
                        let line_sl = &self.buffer[pos..line_end];
                        proof {
                            assert(line_sl@ == line);
                        }
                        let colon = find_byte(line_sl, 0, 58);
                        match colon {
                            None => {
                                proof {
                                    assert(line_sl@.skip(0) =~= line);
                                    assert(sc2 == cur);
                                }
                            },
                            Some(cpos) => {
                                proof {
                                    assert(line_sl@.skip(0) =~= line);
                                    assert(first_byte(line, 58) == Some(cpos as int));
                                }
                                let line_len = line_end - pos;
                                let vs: usize = if cpos + 1 < line_len && line_sl[cpos + 1] == 32 {
                                    cpos + 2
                                } else {
                                    cpos + 1
                                };
                                let ghost name = line.subrange(0, cpos as int);
                                let ghost value = line.subrange(vs as int, line.len() as int);
                                let value_sl = &line_sl[vs..line_len];
                                proof {
                                    assert(value_sl@ =~= value);
                                }
                                let is_data = cpos == 4 && line_sl[0] == 100 && line_sl[1] == 97
                                    && line_sl[2] == 116 && line_sl[3] == 97;
                                let is_event = cpos == 5 && line_sl[0] == 101 && line_sl[1] == 118
                                    && line_sl[2] == 101 && line_sl[3] == 110 && line_sl[4] == 116;
                                let is_id = cpos == 2 && line_sl[0] == 105 && line_sl[1] == 100;
                                proof {
                                    assert(is_data == (name =~= data_name()));
                                    assert(is_event == (name =~= event_name()));
                                    assert(is_id == (name =~= id_name()));
                                }
                                match utf8_to_string(value_sl) {
                                    Some(vstr) => {
                                        if is_data {
                                            if data_s.as_str().is_empty() {
                                                data_s = vstr;
                                            } else {
                                                data_s.append("\n");
                                                proof {
                                                    reveal_strlit("\n");
                                                    assert("\n"@ =~= seq!['\n']);
                                                }
                                                data_s.append(vstr.as_str());
                                            }
                                        } else if is_event {
                                            event_s = vstr;
                                        } else if is_id {
                                            id_s = vstr;
                                        }
                                    },
                                    None => {
                                        proof {
                                            assert(sc2 == cur);
                                        }
                                    },
                                }
                            },
                        }
                        proof {
                            let newcur = ScratchV { data: data_s@, event: event_s@, id: id_s@ };
                            assert(newcur == sc2);
                        }
                        pos = nlpos + 1;
                    }
                },
            }
        }
    }
}

} // verus!
