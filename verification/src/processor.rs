use std::sync::Arc;
use std::sync::atomic::AtomicU64;
use vstd::prelude::*;

verus! {

/// The entry point of the visualisation pipeline: it owns the counter of
/// samples that playback has consumed, which the reader and the writer share.
pub struct Processor {
    playback_counter: Arc<AtomicU64>,
}

impl Processor {
    /// The shared playback counter that this processor was made with.
    pub closed spec fn counter(&self) -> Arc<AtomicU64> {
        self.playback_counter
    }

    pub fn new(playback_counter: Arc<AtomicU64>) -> (p: Self)
        ensures
            p.counter() == playback_counter,
    {
        Self { playback_counter }
    }

    /// Gives the playback counter back, consuming the processor.
    pub fn into_counter(self) -> (c: Arc<AtomicU64>)
        ensures
            c == self.counter(),
    {
        self.playback_counter
    }
}

/// Samples one chunk of the visualisation queue holds.
pub const CHUNK_SAMPLES: usize = 1024;

/// Chunks the visualisation queue holds before the oldest is overwritten.
pub const CHUNK_QUEUE_CAPACITY: usize = 1000;

/// Samples the visualisation keeps once playback has caught up.
pub const VISUALISATION_WINDOW: u64 = 8192;

/// Samples of silence the visualisation buffer starts with.
pub const VISUALISATION_PRELOAD: usize = 9192;

/// The sample rate the reader assumes until it is told another.
pub const DEFAULT_FREQUENCY: u32 = 44100;

/// Where one chunk of a write lies: its first sample counted over all
/// writes, its offset in the written slice, and its length.
#[derive(Clone, Copy, Debug, PartialEq, Eq, Structural)]
pub struct ChunkSpan {
    pub start_sample: u64,
    pub offset: usize,
    pub len: usize,
}

/// The `i`-th chunk of a write of `count` samples that starts at sample `first`.
pub open spec fn span_at(first: u64, count: usize, i: int) -> ChunkSpan {
    let offset = i * CHUNK_SAMPLES;
    ChunkSpan {
        start_sample: (first + offset) as u64,
        offset: offset as usize,
        len: (if count - offset >= CHUNK_SAMPLES {
            CHUNK_SAMPLES as int
        } else {
            count - offset
        }) as usize,
    }
}

/// Splits a write of `count` samples, the first of which is sample number
/// `first` of the stream, into whole chunks and a shorter last chunk.
pub fn chunk_spans(first: u64, count: usize) -> (spans: Vec<ChunkSpan>)
    requires
        first + count <= u64::MAX,
    ensures
        spans@.len() * CHUNK_SAMPLES >= count,
        spans@.len() == 0 || (spans@.len() - 1) * CHUNK_SAMPLES < count,
        forall|i: int| 0 <= i < spans@.len() ==> #[trigger] spans@[i] == span_at(first, count, i),
{
    let mut spans: Vec<ChunkSpan> = Vec::new();
    let mut offset: usize = 0;
    while offset < count
        invariant
            offset <= count,
            first + count <= u64::MAX,
            offset < count ==> offset == spans@.len() * CHUNK_SAMPLES,
            offset == count ==> spans@.len() * CHUNK_SAMPLES >= count,
            spans@.len() == 0 || (spans@.len() - 1) * CHUNK_SAMPLES < count,
            forall|i: int| 0 <= i < spans@.len() ==> #[trigger] spans@[i] == span_at(first, count, i),
        decreases count - offset,
    {
        let remaining = count - offset;
        let len = if remaining >= CHUNK_SAMPLES {
            CHUNK_SAMPLES
        } else {
            remaining
        };
        let span = ChunkSpan { start_sample: first + offset as u64, offset, len };
        proof {
            assert(span == span_at(first, count, spans@.len() as int));
        }
        spans.push(span);
        offset = offset + len;
    }
    spans
}

/// How many samples a writer has handed to the visualisation so far.
pub struct SampleCounter {
    written: u64,
}

impl SampleCounter {
    pub closed spec fn count(&self) -> u64 {
        self.written
    }

    pub fn new() -> (c: Self)
        ensures
            c.count() == 0,
    {
        Self { written: 0 }
    }

    pub fn written(&self) -> (n: u64)
        ensures
            n == self.count(),
    {
        self.written
    }

    /// Lays out a write of `count` samples, numbered on from those written
    /// before, and counts them.
    pub fn write(&mut self, count: usize) -> (spans: Vec<ChunkSpan>)
        requires
            old(self).count() + count <= u64::MAX,
        ensures
            final(self).count() == old(self).count() + count,
            spans@.len() * CHUNK_SAMPLES >= count,
            spans@.len() == 0 || (spans@.len() - 1) * CHUNK_SAMPLES < count,
            forall|i: int|
                0 <= i < spans@.len() ==> #[trigger] spans@[i] == span_at(old(self).count(), count, i),
    {
        let spans = chunk_spans(self.written, count);
        self.written = self.written + count as u64;
        spans
    }
}

/// The chunks of a write follow one another without gap or overlap and
/// together cover exactly the samples written, numbered on from `first`.
pub proof fn law_chunks_tile_write(first: u64, count: usize, n: nat)
    requires
        first + count <= u64::MAX,
        n * CHUNK_SAMPLES >= count,
        n == 0 || (n - 1) * CHUNK_SAMPLES < count,
    ensures
        forall|i: int|
            0 <= i < n ==> {
                let s = #[trigger] span_at(first, count, i);
                &&& 0 < s.len <= CHUNK_SAMPLES
                &&& s.start_sample == first + s.offset
                &&& i + 1 < n ==> s.offset + s.len == span_at(first, count, i + 1).offset
                &&& i + 1 == n ==> s.offset + s.len == count
            },
        n == 0 <==> count == 0,
{
}

/// Where the reader stands after taking in the first `k` of the `queued`
/// chunks, each given by its first sample and its length: just past the last
/// of them, or where it stood before when it took none.
pub open spec fn taken_after(taken: u64, queued: Seq<(u64, usize)>, k: int) -> int {
    if k <= 0 {
        taken as int
    } else {
        queued[k - 1].0 + queued[k - 1].1
    }
}

/// How many samples the visualisation buffer keeps: the window, and what
/// has been taken in but not played yet.
pub open spec fn window_size(taken: u64, playback: u64) -> int {
    VISUALISATION_WINDOW + if taken > playback {
        taken - playback
    } else {
        0
    }
}

/// The visualisation keeps 8192 samples while playback has played all the
/// reader took in, and on top of those every sample taken in but not played
/// yet.
pub proof fn law_window_keeps_what_is_unplayed(taken: u64, playback: u64)
    ensures
        taken <= playback ==> window_size(taken, playback) == 8192,
        taken > playback ==> window_size(taken, playback) == 8192 + (taken - playback),
{
}

/// The queued chunks follow one another from sample `taken` on: each
/// non-empty, each starting where the one before ended.
pub open spec fn in_step(taken: u64, queued: Seq<(u64, usize)>) -> bool {
    &&& queued.len() > 0 ==> queued[0].0 == taken
    &&& forall|i: int| 0 <= i < queued.len() ==> #[trigger] queued[i].1 > 0
    &&& forall|i: int|
        1 <= i < queued.len() ==> #[trigger] queued[i].0 == queued[i - 1].0 + queued[i - 1].1
}

proof fn lemma_starts_grow(queued: Seq<(u64, usize)>, taken: u64, a: int, b: int)
    requires
        in_step(taken, queued),
        0 <= a <= b < queued.len(),
    ensures
        queued[a].0 <= queued[b].0,
    decreases b - a,
{
    if a < b {
        lemma_starts_grow(queued, taken, a, b - 1);
        assert(queued[b].0 == queued[b - 1].0 + queued[b - 1].1);
    }
}

/// When the queue holds the chunks the writer wrote after what the reader
/// took in, one after the other, catching up takes in exactly the chunks that
/// begin before playback, and leaves the reader at the first sample of the
/// chunk that stays at the front.
pub proof fn law_catch_up_takes_what_playback_passed(
    taken: u64,
    playback: u64,
    queued: Seq<(u64, usize)>,
    n: int,
)
    requires
        in_step(taken, queued),
        0 <= n <= queued.len(),
        forall|i: int| 0 <= i < n ==> #[trigger] taken_after(taken, queued, i) < playback,
        n < queued.len() ==> taken_after(taken, queued, n) >= playback,
    ensures
        forall|i: int| 0 <= i < queued.len() ==> (i < n <==> #[trigger] queued[i].0 < playback),
        n < queued.len() ==> taken_after(taken, queued, n) == queued[n].0,
{
    assert forall|i: int| 0 <= i < queued.len() implies taken_after(taken, queued, i) == queued[i].0 by {
        if i > 0 {
            assert(queued[i].0 == queued[i - 1].0 + queued[i - 1].1);
        }
    }
    assert forall|i: int| 0 <= i < queued.len() implies (i < n <==> #[trigger] queued[i].0 < playback) by {
        assert(taken_after(taken, queued, i) == queued[i].0);
        if i >= n {
            lemma_starts_grow(queued, taken, n, i);
            assert(taken_after(taken, queued, n) == queued[n].0);
        }
    }
}

/// The reader's account of what has been written and what playback has reached.
pub struct ReaderClock {
    last_written: u64,
    frequency: u32,
}

impl ReaderClock {
    /// The number just past the last sample the reader has taken in.
    pub closed spec fn taken(&self) -> u64 {
        self.last_written
    }

    pub closed spec fn rate(&self) -> u32 {
        self.frequency
    }

    pub fn new() -> (c: Self)
        ensures
            c.taken() == 0,
            c.rate() == DEFAULT_FREQUENCY,
    {
        Self { last_written: 0, frequency: DEFAULT_FREQUENCY }
    }

    pub fn set_frequency(&mut self, freq: u32)
        ensures
            final(self).rate() == freq,
            final(self).taken() == old(self).taken(),
    {
        self.frequency = freq;
    }

    pub fn frequency(&self) -> (f: u32)
        ensures
            f == self.rate(),
    {
        self.frequency
    }

    pub fn last_written(&self) -> (n: u64)
        ensures
            n == self.taken(),
    {
        self.last_written
    }

    /// Playback has played everything the reader took in: the visualisation
    /// is fed silence for the time of a frame.
    pub fn caught_up(&self, playback: u64) -> (b: bool)
        ensures
            b == (playback == self.taken()),
    {
        playback == self.last_written
    }

    /// Playback is past what the reader took in: another chunk is due.
    pub fn behind(&self, playback: u64) -> (b: bool)
        ensures
            b == (playback > self.taken()),
    {
        playback > self.last_written
    }

    /// Records a chunk taken from the queue.
    pub fn record_chunk(&mut self, start_sample: u64, len: usize)
        requires
            start_sample + len <= u64::MAX,
        ensures
            final(self).taken() == start_sample + len,
            final(self).rate() == old(self).rate(),
    {
        self.last_written = start_sample + len as u64;
    }

    /// How many samples the visualisation buffer keeps: the window, and what
    /// has been taken in but not played yet.
    pub fn window(&self, playback: u64) -> (w: u64)
        requires
            self.taken() <= playback || self.taken() - playback <= u64::MAX - VISUALISATION_WINDOW,
        ensures
            w == window_size(self.taken(), playback),
    {
        VISUALISATION_WINDOW + self.last_written.saturating_sub(playback)
    }

    /// Takes in chunks from the front of the queue while playback is past
    /// what the reader has taken in, stopping when it has caught up or the
    /// queue runs out; tells how many chunks it took, which the caller pops
    /// from the queue in order.
    pub fn catch_up(&mut self, playback: u64, queued: &Vec<(u64, usize)>) -> (n: usize)
        requires
            forall|i: int| 0 <= i < queued@.len() ==> #[trigger] queued@[i].0 + queued@[i].1 <= u64::MAX,
        ensures
            n <= queued@.len(),
            forall|i: int| 0 <= i < n ==> #[trigger] taken_after(old(self).taken(), queued@, i) < playback,
            n < queued@.len() ==> taken_after(old(self).taken(), queued@, n as int) >= playback,
            final(self).taken() == taken_after(old(self).taken(), queued@, n as int),
            final(self).rate() == old(self).rate(),
    {
        let ghost start = self.last_written;
        let mut n: usize = 0;
        while n < queued.len() && self.last_written < playback
            invariant
                n <= queued@.len(),
                forall|i: int| 0 <= i < queued@.len() ==> #[trigger] queued@[i].0 + queued@[i].1 <= u64::MAX,
                self.last_written == taken_after(start, queued@, n as int),
                forall|i: int| 0 <= i < n ==> #[trigger] taken_after(start, queued@, i) < playback,
                self.frequency == old(self).frequency,
            decreases queued@.len() - n,
        {
            let (first, len) = queued[n];
            assert(queued@[n as int].0 + queued@[n as int].1 <= u64::MAX);
            self.last_written = first + len as u64;
            n = n + 1;
        }
        n
    }

    /// How many samples to drop from the front of a visualisation buffer of
    /// `buffered` samples so that it keeps no more than its window.
    pub fn excess(&self, buffered: usize, playback: u64) -> (n: usize)
        requires
            self.taken() <= playback || self.taken() - playback <= u64::MAX - VISUALISATION_WINDOW,
        ensures
            n == if buffered > window_size(self.taken(), playback) {
                buffered - window_size(self.taken(), playback)
            } else {
                0
            },
    {
        let w = self.window(playback);
        let b = buffered as u64;
        if b > w {
            (b - w) as usize
        } else {
            0
        }
    }
}

} // verus!
