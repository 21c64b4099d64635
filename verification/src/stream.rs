//! The streaming line splitter of the crawl operation: chunks of bytes
//! arrive, complete lines are cut out as they form, each line that parses
//! as JSON is delivered in order, and a malformed line is silently
//! skipped. A transport failure mid-stream stops everything at once; the
//! records already delivered stand, and the operation resolves to the
//! null value either way.

use vstd::prelude::*;

use crate::decode::lemma_parsed_records_append;
use crate::decode::parse_lines;
use crate::decode::parsed_records;
use crate::json::json_parse;
use crate::json::parse_json_bytes;
use crate::json::JsonValue;
use crate::lines::lemma_split_sep_append;
use crate::lines::lemma_split_sep_len;
use crate::lines::lemma_split_sep_pieces_no_sep;
use crate::lines::lines_model;
use crate::lines::split_sep;
use crate::lines::split_sep_bytes;

verus! {

/// The incremental splitter: it holds the bytes after the last line
/// ending, waiting for the rest of that line.
pub struct LineSplitter {
    buf: Vec<u8>,
}

impl LineSplitter {
    /// The bytes received but not yet delivered as a complete line.
    pub closed spec fn pending(self) -> Seq<u8> {
        self.buf@
    }

    /// No complete line ever stays buffered.
    #[verifier::type_invariant]
    pub closed spec fn wf(self) -> bool {
        forall|i: int| 0 <= i < self.buf@.len() ==> self.buf@[i] != 10
    }

    /// An idle splitter with nothing buffered.
    pub fn new() -> (r: LineSplitter)
        ensures
            r.pending() == Seq::<u8>::empty(),
    {
        LineSplitter { buf: Vec::new() }
    }

    /// Append one chunk and cut out the lines it completes, in order;
    /// the incomplete trailing data stays buffered for the next chunk.
    pub fn push_chunk(&mut self, chunk: &[u8]) -> (lines: Vec<Vec<u8>>)
        ensures
            lines_model(lines) == split_sep(old(self).pending() + chunk@, 10).drop_last(),
            final(self).pending() == split_sep(old(self).pending() + chunk@, 10).last(),
    {
        proof {
            use_type_invariant(&*self);
        }
        let mut combined: Vec<u8> = Vec::new();
        let bn = self.buf.len();
        let mut i: usize = 0;
        while i < bn
            invariant
                bn == self.buf@.len(),
                self.buf@ == old(self).pending(),
                0 <= i <= bn,
                combined@ == self.buf@.subrange(0, i as int),
            decreases bn - i,
        {
            combined.push(self.buf[i]);
            proof {
                assert(combined@ =~= self.buf@.subrange(0, i as int + 1));
            }
            i += 1;
        }
        let cn = chunk.len();
        let mut i: usize = 0;
        proof {
            assert(old(self).pending().subrange(0, bn as int) =~= old(self).pending());
            assert(combined@ + chunk@.subrange(0, 0) =~= combined@);
        }
        while i < cn
            invariant
                cn == chunk@.len(),
                0 <= i <= cn,
                combined@ == old(self).pending() + chunk@.subrange(0, i as int),
            decreases cn - i,
        {
            combined.push(chunk[i]);
            proof {
                assert(combined@ =~= old(self).pending() + chunk@.subrange(0, i as int + 1));
            }
            i += 1;
        }
        proof {
            assert(chunk@.subrange(0, cn as int) =~= chunk@);
        }
        let ghost joined = old(self).pending() + chunk@;
        let mut pieces = split_sep_bytes(combined.as_slice(), 10);
        let ghost pm = lines_model(pieces);
        let last_idx = pieces.len() - 1;
        let tail = pieces.remove(last_idx);
        proof {
            assert(tail@ == pm.last());
            assert(lines_model(pieces) =~= pm.drop_last());
            lemma_split_sep_pieces_no_sep(joined, 10);
            assert(forall|k: int| 0 <= k < tail@.len() ==> tail@[k] != 10);
        }
        *self = LineSplitter { buf: tail };
        pieces
    }

    /// Close the splitter, handing back the incomplete trailing data.
    pub fn finish(self) -> (r: Vec<u8>)
        ensures
            r@ == self.pending(),
    {
        self.buf
    }
}

/// One event of the chunked byte stream, as the transport reports it.
#[derive(Debug)]
pub enum StreamEvent {
    /// The next chunk of bytes.
    Chunk(Vec<u8>),
    /// The transport stream failed; nothing follows.
    TransportFailed,
}

/// The bytes received before the stream ends or fails.
pub open spec fn bytes_before_error(events: Seq<StreamEvent>) -> Seq<u8>
    decreases events.len(),
{
    if events.len() == 0 {
        Seq::empty()
    } else {
        match events[0] {
            StreamEvent::Chunk(c) => c@ + bytes_before_error(events.drop_first()),
            StreamEvent::TransportFailed => Seq::empty(),
        }
    }
}

/// Whether the stream fails before its normal end.
pub open spec fn stream_errored(events: Seq<StreamEvent>) -> bool
    decreases events.len(),
{
    if events.len() == 0 {
        false
    } else {
        match events[0] {
            StreamEvent::Chunk(_) => stream_errored(events.drop_first()),
            StreamEvent::TransportFailed => true,
        }
    }
}

/// The records a streamed crawl delivers to its callback, in order: every
/// line of the received bytes that parses as JSON. On a failure the
/// incomplete trailing data is abandoned with the stream; on a normal end
/// it is tried as a final line.
pub open spec fn stream_deliveries(events: Seq<StreamEvent>) -> Seq<serde_json::Value> {
    let received = bytes_before_error(events);
    if stream_errored(events) {
        parsed_records(split_sep(received, 10).drop_last())
    } else {
        parsed_records(split_sep(received, 10))
    }
}

/// The bytes of the first `n` events, all chunks.
spec fn prefix_bytes(events: Seq<StreamEvent>, n: int) -> Seq<u8>
    decreases n,
{
    if n <= 0 {
        Seq::empty()
    } else {
        prefix_bytes(events, n - 1) + (match events[n - 1] {
            StreamEvent::Chunk(c) => c@,
            StreamEvent::TransportFailed => Seq::empty(),
        })
    }
}

/// A stream whose events are all chunks neither errs nor loses bytes.
proof fn lemma_clean_stream(events: Seq<StreamEvent>)
    requires
        forall|j: int| 0 <= j < events.len() ==> (#[trigger] events[j]) is Chunk,
    ensures
        !stream_errored(events),
        bytes_before_error(events) == prefix_bytes(events, events.len() as int),
    decreases events.len(),
{
    if events.len() > 0 {
        lemma_clean_first(events);
    }
}

/// Peeling the first chunk off a stream.
proof fn lemma_clean_first(events: Seq<StreamEvent>)
    requires
        events.len() > 0,
        forall|j: int| 0 <= j < events.len() ==> (#[trigger] events[j]) is Chunk,
    ensures
        !stream_errored(events),
        bytes_before_error(events) == prefix_bytes(events, events.len() as int),
    decreases events.len(),
{
    let rest = events.drop_first();
    assert(events[0] is Chunk);
    assert(forall|j: int| 0 <= j < rest.len() ==> (#[trigger] rest[j]) == events[j + 1]);
    if rest.len() > 0 {
        lemma_clean_first(rest);
    } else {
        assert(!stream_errored(rest));
        assert(bytes_before_error(rest) =~= Seq::<u8>::empty());
    }
    assert(stream_errored(events) == stream_errored(rest));
    lemma_prefix_bytes_shift(events, events.len() as int);
    assert(events[0] matches StreamEvent::Chunk(c) ==> bytes_before_error(events) == c@
        + bytes_before_error(rest));
}

/// The prefix bytes of a stream, seen through its first event.
proof fn lemma_prefix_bytes_shift(events: Seq<StreamEvent>, n: int)
    requires
        1 <= n <= events.len(),
        events[0] is Chunk,
    ensures
        prefix_bytes(events, n) == (match events[0] {
            StreamEvent::Chunk(c) => c@,
            StreamEvent::TransportFailed => Seq::empty(),
        }) + prefix_bytes(events.drop_first(), n - 1),
    decreases n,
{
    let rest = events.drop_first();
    if n == 1 {
        let c0 = (match events[0] {
            StreamEvent::Chunk(c) => c@,
            StreamEvent::TransportFailed => Seq::<u8>::empty(),
        });
        assert(prefix_bytes(events, 0) =~= Seq::<u8>::empty());
        assert(prefix_bytes(rest, 0) =~= Seq::<u8>::empty());
        assert(prefix_bytes(events, 1) == prefix_bytes(events, 0) + c0);
        assert(prefix_bytes(events, 0) + c0 =~= c0 + prefix_bytes(rest, 0));
    } else {
        lemma_prefix_bytes_shift(events, n - 1);
        assert(rest[n - 2] == events[n - 1]);
        assert(prefix_bytes(events, n) =~= (match events[0] {
            StreamEvent::Chunk(c) => c@,
            StreamEvent::TransportFailed => Seq::<u8>::empty(),
        }) + prefix_bytes(rest, n - 1));
    }
}

/// An error right after a clean prefix: the stream errs, and exactly the
/// prefix bytes were received.
proof fn lemma_errored_stream(events: Seq<StreamEvent>, n: int)
    requires
        0 <= n < events.len(),
        forall|j: int| 0 <= j < n ==> (#[trigger] events[j]) is Chunk,
        events[n] is TransportFailed,
    ensures
        stream_errored(events),
        bytes_before_error(events) == prefix_bytes(events, n),
    decreases n,
{
    if n == 0 {
        assert(bytes_before_error(events) =~= prefix_bytes(events, 0));
    } else {
        let rest = events.drop_first();
        assert(forall|j: int| 0 <= j < rest.len() ==> (#[trigger] rest[j]) == events[j + 1]);
        lemma_errored_stream(rest, n - 1);
        lemma_prefix_bytes_shift(events, n);
    }
}

/// Run a streamed crawl over the events the transport would report, in
/// order: the records that are delivered to the callback, and the value
/// the operation resolves to — always the null value, a mid-stream
/// failure included; the records already delivered are not undone.
pub fn run_crawl_stream(events: &Vec<StreamEvent>) -> (r: (Vec<serde_json::Value>, JsonValue))
    ensures
        r.0@ == stream_deliveries(events@),
        r.1 == JsonValue::Null,
{
    let n = events.len();
    let mut splitter = LineSplitter::new();
    let mut out: Vec<serde_json::Value> = Vec::new();
    let mut i: usize = 0;
    proof {
        assert(splitter.pending() + Seq::<u8>::empty() =~= splitter.pending());
        assert(split_sep(Seq::<u8>::empty(), 10) =~= seq![Seq::<u8>::empty()]);
        assert(prefix_bytes(events@, 0) =~= Seq::<u8>::empty());
        assert(split_sep(prefix_bytes(events@, 0), 10).drop_last()
            =~= Seq::<Seq<u8>>::empty());
        assert(out@ =~= parsed_records(split_sep(prefix_bytes(events@, 0), 10).drop_last()));
    }
    while i < n
        invariant
            n == events@.len(),
            0 <= i <= n,
            forall|j: int| 0 <= j < i ==> (#[trigger] events@[j]) is Chunk,
            splitter.pending() == split_sep(prefix_bytes(events@, i as int), 10).last(),
            out@ == parsed_records(split_sep(prefix_bytes(events@, i as int), 10).drop_last()),
        decreases n - i,
    {
        let ghost received = prefix_bytes(events@, i as int);
        match &events[i] {
            StreamEvent::Chunk(c) => {
                let ghost pending_before = splitter.pending();
                let lines = splitter.push_chunk(c.as_slice());
                let parsed = parse_lines(&lines);
                let ghost out_before = out@;
                let mut parsed = parsed;
                out.append(&mut parsed);
                proof {
                    let grown = received + c@;
                    assert(prefix_bytes(events@, i as int + 1) == grown);
                    lemma_split_sep_append(received, c@, 10);
                    lemma_split_sep_len(pending_before + c@, 10);
                    let old_split = split_sep(received, 10);
                    let cont = split_sep(pending_before + c@, 10);
                    assert(split_sep(grown, 10) == old_split.drop_last() + cont);
                    assert(split_sep(grown, 10).drop_last() =~= old_split.drop_last()
                        + cont.drop_last());
                    assert(split_sep(grown, 10).last() == cont.last());
                    lemma_parsed_records_append(old_split.drop_last(), cont.drop_last());
                }
            },
            StreamEvent::TransportFailed => {
                proof {
                    lemma_errored_stream(events@, i as int);
                }
                return (out, JsonValue::Null);
            },
        }
        i += 1;
    }
    let tail = splitter.finish();
    let ghost received = prefix_bytes(events@, n as int);
    let ghost full_split = split_sep(received, 10);
    match parse_json_bytes(tail.as_slice()) {
        Some(v) => {
            let ghost out_before = out@;
            out.push(v);
            proof {
                assert(out@ =~= out_before + seq![v]);
            }
        },
        None => {},
    }
    proof {
        lemma_clean_stream(events@);
        lemma_split_sep_len(received, 10);
        assert(full_split =~= full_split.drop_last() + seq![full_split.last()]);
        lemma_parsed_records_append(full_split.drop_last(), seq![full_split.last()]);
        assert(seq![full_split.last()].drop_first() =~= Seq::<Seq<u8>>::empty());
        assert(parsed_records(seq![full_split.last()]) =~= (match json_parse(full_split.last()) {
            Some(v) => seq![v],
            None => Seq::<serde_json::Value>::empty(),
        }));
        assert(out@ =~= parsed_records(full_split));
    }
    (out, JsonValue::Null)
}

} // verus!
