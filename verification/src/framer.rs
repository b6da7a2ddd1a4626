//! Reassembly of a received byte stream, cut at arbitrary places, into
//! lines.

use vstd::prelude::*;
use vstd::slice::{slice_subrange, slice_to_vec};

verus! {

/// The byte that ends a line.
pub const LINE_FEED: u8 = 0x0A;

/// A chunk that arrives more than this many milliseconds after the previous
/// one flushes what is pending.
pub const STALE_AFTER_MS: u64 = 100;

/// More pending bytes than this are flushed at once.
pub const MAX_PENDING: usize = 1024;

/// The position of the first line feed in `bytes`, or their length if there
/// is none.
pub open spec fn first_line_feed(bytes: Seq<u8>) -> int
    decreases bytes.len(),
{
    if bytes.len() == 0 || bytes[0] == LINE_FEED {
        0
    } else {
        1 + first_line_feed(bytes.skip(1))
    }
}

/// The lines in `bytes` that a line feed ends, each with its line feed.
pub open spec fn complete_lines(bytes: Seq<u8>) -> Seq<Seq<u8>>
    decreases bytes.len(),
{
    let cut = first_line_feed(bytes);
    if 0 <= cut < bytes.len() {
        seq![bytes.take(cut + 1)] + complete_lines(bytes.skip(cut + 1))
    } else {
        Seq::empty()
    }
}

/// What follows the last line feed in `bytes`.
pub open spec fn remainder(bytes: Seq<u8>) -> Seq<u8>
    decreases bytes.len(),
{
    let cut = first_line_feed(bytes);
    if 0 <= cut < bytes.len() {
        remainder(bytes.skip(cut + 1))
    } else {
        bytes
    }
}

/// Whether `bytes` hold no line feed.
pub open spec fn no_line_feed(bytes: Seq<u8>) -> bool {
    forall|i: int| 0 <= i < bytes.len() ==> bytes[i] != LINE_FEED
}

/// A line that its only line feed ends.
pub open spec fn is_terminated_line(line: Seq<u8>) -> bool {
    &&& line.len() > 0
    &&& line.last() == LINE_FEED
    &&& no_line_feed(line.drop_last())
}

/// A line flushed before its line feed came.
pub open spec fn is_partial_line(line: Seq<u8>) -> bool {
    line.len() > 0 && no_line_feed(line)
}

/// What a framer holds: the bytes that wait for their line feed, and the
/// time at which the previous chunk came, if one did.
pub struct FramerModel {
    pub pending: Seq<u8>,
    pub last_rx: Option<u64>,
}

impl FramerModel {
    /// A framer that has seen nothing.
    pub open spec fn fresh() -> FramerModel {
        FramerModel { pending: Seq::empty(), last_rx: None }
    }

    /// Whether a chunk that comes at `now` finds the pending bytes stale.
    pub open spec fn stale_at(self, now: u64) -> bool {
        self.last_rx matches Some(last) && now - last > STALE_AFTER_MS
    }

    /// Whether the bytes left after the complete lines are flushed too.
    pub open spec fn flushes_rest(self, chunk: Seq<u8>, now: u64) -> bool {
        let rest = remainder(self.pending + chunk);
        (self.stale_at(now) && rest.len() > 0) || rest.len() > MAX_PENDING
    }

    /// The lines that come out when `chunk` arrives at `now`.
    pub open spec fn flushed(self, chunk: Seq<u8>, now: u64) -> Seq<Seq<u8>> {
        let all = self.pending + chunk;
        if self.flushes_rest(chunk, now) {
            complete_lines(all).push(remainder(all))
        } else {
            complete_lines(all)
        }
    }

    /// The framer after `chunk` arrived at `now`.
    pub open spec fn fed(self, chunk: Seq<u8>, now: u64) -> FramerModel {
        FramerModel {
            pending: if self.flushes_rest(chunk, now) {
                Seq::empty()
            } else {
                remainder(self.pending + chunk)
            },
            last_rx: Some(now),
        }
    }
}

/// `first_line_feed` is the least position that holds a line feed.
pub proof fn lemma_first_line_feed(bytes: Seq<u8>)
    ensures
        0 <= first_line_feed(bytes) <= bytes.len(),
        no_line_feed(bytes.take(first_line_feed(bytes))),
        first_line_feed(bytes) < bytes.len() ==> bytes[first_line_feed(bytes)] == LINE_FEED,
    decreases bytes.len(),
{
    if bytes.len() == 0 || bytes[0] == LINE_FEED {
    } else {
        let tail = bytes.skip(1);
        lemma_first_line_feed(tail);
        let cut = first_line_feed(tail);
        let prefix = bytes.take(cut + 1);
        assert forall|i: int| 0 <= i < prefix.len() implies #[trigger] prefix[i] != LINE_FEED by {
            if i > 0 {
                assert(tail.take(cut)[i - 1] == bytes[i]);
            }
        }
    }
}

/// A line feed at `at` with none before it is the first.
pub proof fn lemma_first_line_feed_at(bytes: Seq<u8>, at: int)
    requires
        0 <= at <= bytes.len(),
        no_line_feed(bytes.take(at)),
        at < bytes.len() ==> bytes[at] == LINE_FEED,
    ensures
        first_line_feed(bytes) == at,
    decreases bytes.len(),
{
    if bytes.len() == 0 {
    } else if bytes[0] == LINE_FEED {
        if at > 0 {
            assert(bytes.take(at)[0] == LINE_FEED);
        }
    } else {
        let tail = bytes.skip(1);
        let prefix = tail.take(at - 1);
        assert forall|i: int| 0 <= i < prefix.len() implies #[trigger] prefix[i] != LINE_FEED by {
            assert(bytes.take(at)[i + 1] == tail[i]);
        }
        lemma_first_line_feed_at(tail, at - 1);
    }
}

/// Cutting loses nothing: the complete lines followed by the remainder are
/// the bytes themselves.
pub proof fn lemma_lines_lossless(bytes: Seq<u8>)
    ensures
        complete_lines(bytes).flatten() + remainder(bytes) == bytes,
    decreases bytes.len(),
{
    lemma_first_line_feed(bytes);
    let cut = first_line_feed(bytes);
    if cut < bytes.len() {
        let head = bytes.take(cut + 1);
        let tail = bytes.skip(cut + 1);
        lemma_lines_lossless(tail);
        seq![head].lemma_flatten_one_element();
        vstd::seq_lib::lemma_flatten_concat(seq![head], complete_lines(tail));
        assert(head + (complete_lines(tail).flatten() + remainder(tail)) =~= bytes);
    }
}

/// Every complete line ends in its only line feed, and the remainder holds
/// none.
pub proof fn lemma_lines_shape(bytes: Seq<u8>)
    ensures
        forall|i: int|
            0 <= i < complete_lines(bytes).len() ==> is_terminated_line(
                #[trigger] complete_lines(bytes)[i],
            ),
        no_line_feed(remainder(bytes)),
    decreases bytes.len(),
{
    lemma_first_line_feed(bytes);
    let cut = first_line_feed(bytes);
    if cut < bytes.len() {
        let head = bytes.take(cut + 1);
        let tail = bytes.skip(cut + 1);
        lemma_lines_shape(tail);
        assert forall|i: int| 0 <= i < complete_lines(bytes).len() implies is_terminated_line(
            #[trigger] complete_lines(bytes)[i],
        ) by {
            if i > 0 {
                assert(complete_lines(bytes)[i] == complete_lines(tail)[i - 1]);
            }
        }
    } else {
        assert(bytes.take(cut) =~= bytes);
    }
}

/// Whatever the framer held and whenever the chunk comes: nothing is lost,
/// lines come out singly, and no more than `MAX_PENDING` bytes stay behind.
pub proof fn lemma_fed(model: FramerModel, chunk: Seq<u8>, now: u64)
    ensures
        model.flushed(chunk, now).flatten() + model.fed(chunk, now).pending == model.pending
            + chunk,
        no_line_feed(model.fed(chunk, now).pending),
        model.fed(chunk, now).pending.len() <= MAX_PENDING,
        forall|i: int|
            0 <= i < model.flushed(chunk, now).len() ==> {
                let line = #[trigger] model.flushed(chunk, now)[i];
                is_terminated_line(line) || (i == model.flushed(chunk, now).len() - 1
                    && is_partial_line(line))
            },
{
    let all = model.pending + chunk;
    let lines = complete_lines(all);
    let rest = remainder(all);
    lemma_lines_lossless(all);
    lemma_lines_shape(all);
    if model.flushes_rest(chunk, now) {
        seq![rest].lemma_flatten_one_element();
        vstd::seq_lib::lemma_flatten_concat(lines, seq![rest]);
        assert(lines.push(rest) =~= lines + seq![rest]);
    }
}

impl FramerModel {
    /// The framer after the chunks arrived one after the other, the i-th at
    /// the i-th of `times`.
    pub open spec fn fed_all(self, chunks: Seq<Seq<u8>>, times: Seq<u64>) -> FramerModel
        decreases chunks.len(),
    {
        if chunks.len() == 0 {
            self
        } else {
            self.fed_all(chunks.drop_last(), times.drop_last()).fed(chunks.last(), times.last())
        }
    }

    /// All lines that came out while the chunks arrived, in their order.
    pub open spec fn flushed_all(self, chunks: Seq<Seq<u8>>, times: Seq<u64>) -> Seq<Seq<u8>>
        decreases chunks.len(),
    {
        if chunks.len() == 0 {
            Seq::empty()
        } else {
            self.flushed_all(chunks.drop_last(), times.drop_last()) + self.fed_all(
                chunks.drop_last(),
                times.drop_last(),
            ).flushed(chunks.last(), times.last())
        }
    }
}

/// Reassembly is lossless: however a stream is cut into chunks and whenever
/// they arrive, the lines handed out, followed by the bytes still pending,
/// are what was pending at first followed by the chunks. Once nothing is
/// pending, the lines alone are the stream.
pub proof fn lemma_reassembly_lossless(model: FramerModel, chunks: Seq<Seq<u8>>, times: Seq<u64>)
    requires
        chunks.len() == times.len(),
    ensures
        model.flushed_all(chunks, times).flatten() + model.fed_all(chunks, times).pending
            == model.pending + chunks.flatten(),
    decreases chunks.len(),
{
    if chunks.len() > 0 {
        let earlier = chunks.drop_last();
        let before = model.fed_all(earlier, times.drop_last());
        let out_before = model.flushed_all(earlier, times.drop_last());
        let out_last = before.flushed(chunks.last(), times.last());
        lemma_reassembly_lossless(model, earlier, times.drop_last());
        lemma_fed(before, chunks.last(), times.last());
        vstd::seq_lib::lemma_flatten_concat(out_before, out_last);
        seq![chunks.last()].lemma_flatten_one_element();
        vstd::seq_lib::lemma_flatten_concat(earlier, seq![chunks.last()]);
        assert(chunks =~= earlier + seq![chunks.last()]);
        assert(model.flushed_all(chunks, times).flatten() + model.fed_all(chunks, times).pending
            =~= out_before.flatten() + (out_last.flatten() + before.fed(
            chunks.last(),
            times.last(),
        ).pending));
        assert(out_before.flatten() + (before.pending + chunks.last()) =~= (out_before.flatten()
            + before.pending) + chunks.last());
    }
}

/// Splits a received byte stream into lines. A line is complete with its
/// line feed; what waits longer than `STALE_AFTER_MS` for the next chunk, or
/// grows beyond `MAX_PENDING` bytes, is handed out as it is.
pub struct LineFramer {
    buffer: Vec<u8>,
    last_rx: Option<u64>,
}

impl View for LineFramer {
    type V = FramerModel;

    closed spec fn view(&self) -> FramerModel {
        FramerModel { pending: self.buffer@, last_rx: self.last_rx }
    }
}

impl LineFramer {
    /// A framer that has seen nothing.
    pub fn new() -> (framer: Self)
        ensures
            framer@ == FramerModel::fresh(),
    {
        LineFramer { buffer: Vec::new(), last_rx: None }
    }

    /// Drops the pending bytes and forgets when the previous chunk came.
    pub fn reset(&mut self)
        ensures
            final(self)@ == FramerModel::fresh(),
    {
        self.buffer = Vec::new();
        self.last_rx = None;
    }

    /// The bytes that wait for their line feed.
    pub fn pending(&self) -> (bytes: &[u8])
        ensures
            bytes@ == self@.pending,
    {
        self.buffer.as_slice()
    }

    /// Takes in the chunk that arrived at `now`, a time in milliseconds on
    /// any clock that does not run backwards, and returns the lines that
    /// this completes or flushes, in the order of their bytes.
    pub fn feed(&mut self, chunk: &[u8], now: u64) -> (lines: Vec<Vec<u8>>)
        ensures
            final(self)@ == old(self)@.fed(chunk@, now),
            lines.deep_view() == old(self)@.flushed(chunk@, now),
            lines.deep_view().flatten() + final(self)@.pending == old(self)@.pending + chunk@,
            no_line_feed(final(self)@.pending),
            final(self)@.pending.len() <= MAX_PENDING,
            forall|i: int|
                0 <= i < lines@.len() ==> is_terminated_line(#[trigger] lines@[i]@) || (i
                    == lines@.len() - 1 && is_partial_line(lines@[i]@)),
    {
        let ghost all = self.buffer@ + chunk@;
        self.buffer.extend_from_slice(chunk);
        let mut lines: Vec<Vec<u8>> = Vec::new();
        let mut start: usize = 0;
        let mut i: usize = 0;
        assert(all.skip(0) =~= all);
        while i < self.buffer.len()
            invariant
                self.buffer@ == all,
                start <= i <= all.len(),
                no_line_feed(all.subrange(start as int, i as int)),
                lines.deep_view() + complete_lines(all.skip(start as int)) == complete_lines(all),
                remainder(all.skip(start as int)) == remainder(all),
            decreases all.len() - i,
        {
            if self.buffer[i] == LINE_FEED {
                let line = slice_to_vec(slice_subrange(self.buffer.as_slice(), start, i + 1));
                proof {
                    let tail = all.skip(start as int);
                    let cut = i - start;
                    lemma_first_line_feed_at(tail, cut);
                    assert(tail.take(cut + 1) =~= line@);
                    assert(tail.skip(cut + 1) =~= all.skip(i + 1));
                    assert(line.deep_view() =~= line@);
                }
                lines.push(line);
                start = i + 1;
            }
            i += 1;
        }
        let rest = slice_to_vec(slice_subrange(self.buffer.as_slice(), start, i));
        proof {
            let tail = all.skip(start as int);
            lemma_first_line_feed_at(tail, tail.len() as int);
            assert(rest.deep_view() =~= rest@);
        }
        let stale = match self.last_rx {
            Some(last) => now > last && now - last > STALE_AFTER_MS,
            None => false,
        };
        if (stale && rest.len() > 0) || rest.len() > MAX_PENDING {
            let ghost before = lines.deep_view();
            lines.push(rest);
            assert(lines.deep_view() =~= before.push(remainder(all)));
            self.buffer = Vec::new();
        } else {
            self.buffer = rest;
        }
        self.last_rx = Some(now);
        proof {
            lemma_fed(old(self)@, chunk@, now);
            assert forall|i: int| 0 <= i < lines@.len() implies is_terminated_line(
                #[trigger] lines@[i]@,
            ) || (i == lines@.len() - 1 && is_partial_line(lines@[i]@)) by {
                assert(lines.deep_view()[i] =~= lines@[i]@);
            }
        }
        lines
    }
}

} // verus!
