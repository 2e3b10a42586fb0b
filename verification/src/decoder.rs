use crate::controller::{handed_over, AudioPlaybackMessage};
use vstd::prelude::*;

verus! {

/// Samples the decoder's input buffer holds.
pub const INPUT_CAPACITY: usize = 15_000;

/// Samples the decoder's output buffer holds.
pub const OUTPUT_CAPACITY: usize = 20_000;

/// The decoder reads another packet only while its input holds fewer samples than this.
pub const DECODE_THRESHOLD: usize = 10_000;

/// Samples handed to playback at a time.
pub const PUSH_CHUNK: usize = 1024;

/// Samples the queue between the decoder and playback holds.
pub const PLAYBACK_QUEUE_CAPACITY: usize = 10_000;

/// Volume, in percent, that the decoder starts with.
pub const DECODER_INITIAL_VOLUME: u32 = 100;

/// Stream parameters used when a stream does not declare them.
pub const DEFAULT_SAMPLE_RATE: u32 = 44_100;

pub const DEFAULT_CHANNELS: usize = 2;

/// Frames the resampler takes per chunk, and the sub-chunks it works in.
pub const RESAMPLER_CHUNK_FRAMES: usize = 1024;

pub const RESAMPLER_SUB_CHUNKS: usize = 2;

/// What the decoding thread does after reading a message from the controller.
#[derive(Debug)]
pub enum DecoderStep {
    /// Leave the decoding loop.
    Stop,
    /// Nothing to do but go on.
    Continue,
    /// Connect to the stream at this address, and play it if that works.
    Connect(String),
    /// Drop the current stream.
    Disconnect,
}

/// The sample rate and channel count of a stream, with the defaults filled in.
pub fn stream_format(sample_rate: Option<u32>, channels: Option<usize>) -> (format: (u32, usize))
    ensures
        format.0 == match sample_rate {
            Some(r) => r,
            None => DEFAULT_SAMPLE_RATE,
        },
        format.1 == match channels {
            Some(c) => c,
            None => DEFAULT_CHANNELS,
        },
{
    let rate = match sample_rate {
        Some(r) => r,
        None => DEFAULT_SAMPLE_RATE,
    };
    let count = match channels {
        Some(c) => c,
        None => DEFAULT_CHANNELS,
    };
    (rate, count)
}

/// The decoder's volume after it has read `msg`.
pub open spec fn volume_after(volume: u32, msg: AudioPlaybackMessage) -> u32 {
    match msg {
        AudioPlaybackMessage::SetVolume(v) => v,
        _ => volume,
    }
}

/// The decoder's volume after it has read `msgs`, oldest first, starting at `volume`.
pub open spec fn volume_after_all(volume: u32, msgs: Seq<AudioPlaybackMessage>) -> u32
    decreases msgs.len(),
{
    if msgs.len() == 0 {
        volume
    } else {
        volume_after(volume_after_all(volume, msgs.drop_last()), msgs.last())
    }
}

/// Messages that set no volume leave the decoder's volume where it started.
pub proof fn lemma_no_volume_messages(volume: u32, msgs: Seq<AudioPlaybackMessage>)
    requires
        forall|i: int| 0 <= i < msgs.len() ==> !(#[trigger] msgs[i] is SetVolume),
    ensures
        volume_after_all(volume, msgs) == volume,
    decreases msgs.len(),
{
    if msgs.len() > 0 {
        let rest = msgs.drop_last();
        assert forall|i: int| 0 <= i < rest.len() implies !(#[trigger] rest[i] is SetVolume) by {
            assert(rest[i] == msgs[i]);
        }
        lemma_no_volume_messages(volume, rest);
        assert(!(msgs[msgs.len() - 1] is SetVolume));
    }
}

/// The last volume message read decides the decoder's volume.
pub proof fn law_last_volume_wins(volume: u32, msgs: Seq<AudioPlaybackMessage>, v: u32)
    ensures
        volume_after_all(volume, msgs.push(AudioPlaybackMessage::SetVolume(v))) == v,
{
    assert(msgs.push(AudioPlaybackMessage::SetVolume(v)).drop_last() =~= msgs);
}

/// The decoder reads the controller's messages one at a time, in the order
/// they were handed over. If each read sets the volume as `handle_message`
/// says (`volumes[i]` before reading `msgs[i]`, `volumes[i + 1]` after), then
/// after the first `i` messages the decoder is at the volume those `i`
/// messages give, and after all of them at the volume they all give.
pub proof fn law_messages_read_in_order(msgs: Seq<AudioPlaybackMessage>, volumes: Seq<u32>)
    requires
        volumes.len() == msgs.len() + 1,
        forall|i: int|
            0 <= i < msgs.len() ==> #[trigger] volumes[i + 1] == volume_after(volumes[i], msgs[i]),
    ensures
        forall|i: int|
            0 <= i <= msgs.len() ==> #[trigger] volumes[i] == volume_after_all(
                volumes[0],
                msgs.take(i),
            ),
        volumes.last() == volume_after_all(volumes[0], msgs),
    decreases msgs.len(),
{
    if msgs.len() > 0 {
        let n = msgs.len() - 1;
        let head = msgs.take(n);
        let first = volumes.take(n + 1);
        assert forall|i: int| 0 <= i < head.len() implies #[trigger] first[i + 1] == volume_after(
            first[i],
            head[i],
        ) by {
            assert(volumes[i + 1] == volume_after(volumes[i], msgs[i]));
        }
        law_messages_read_in_order(head, first);
        assert forall|i: int| 0 <= i <= msgs.len() implies #[trigger] volumes[i]
            == volume_after_all(volumes[0], msgs.take(i)) by {
            if i <= n {
                assert(head.take(i) =~= msgs.take(i));
                assert(first[i] == volumes[i]);
            } else {
                assert(msgs.take(i).drop_last() =~= msgs.take(n));
                assert(volumes[n + 1] == volume_after(volumes[n], msgs[n]));
                assert(head.take(n) =~= msgs.take(n));
                assert(first[n] == volumes[n]);
            }
        }
        assert(msgs.take(msgs.len() as int) =~= msgs);
    } else {
        assert(msgs.take(0) =~= msgs);
    }
}

/// Two volume changes handed over one after the other leave the decoder,
/// once it has read them, at the second volume, whatever it read before.
pub proof fn law_second_volume_wins(
    volume: u32,
    s0: Seq<AudioPlaybackMessage>,
    s1: Seq<AudioPlaybackMessage>,
    s2: Seq<AudioPlaybackMessage>,
    a: u32,
    b: u32,
)
    requires
        handed_over(s0, s1, AudioPlaybackMessage::SetVolume(a)),
        handed_over(s1, s2, AudioPlaybackMessage::SetVolume(b)),
    ensures
        volume_after_all(volume, s2) == b,
{
    law_last_volume_wins(volume, s1, b);
}

/// The bookkeeping of the decoding thread: its volume and how many samples
/// its input and output buffers hold.
pub struct DecoderState {
    volume_percent: u32,
    input_len: usize,
    output_len: usize,
}

impl DecoderState {
    pub closed spec fn volume(&self) -> u32 {
        self.volume_percent
    }

    pub closed spec fn input(&self) -> nat {
        self.input_len as nat
    }

    pub closed spec fn output(&self) -> nat {
        self.output_len as nat
    }

    /// Both buffers hold no more than they have room for.
    pub open spec fn wf(&self) -> bool {
        self.input() <= INPUT_CAPACITY && self.output() <= OUTPUT_CAPACITY
    }

    #[verifier::type_invariant]
    spec fn inv(&self) -> bool {
        self.input_len <= INPUT_CAPACITY && self.output_len <= OUTPUT_CAPACITY
    }

    pub fn new() -> (s: Self)
        ensures
            s.volume() == DECODER_INITIAL_VOLUME,
            s.input() == 0,
            s.output() == 0,
            s.wf(),
    {
        Self { volume_percent: DECODER_INITIAL_VOLUME, input_len: 0, output_len: 0 }
    }

    pub fn volume_percent(&self) -> (v: u32)
        ensures
            v == self.volume(),
    {
        self.volume_percent
    }

    pub fn input_len(&self) -> (n: usize)
        ensures
            n == self.input(),
    {
        self.input_len
    }

    pub fn output_len(&self) -> (n: usize)
        ensures
            n == self.output(),
    {
        self.output_len
    }

    /// Applies a message from the controller and tells the thread what to do.
    pub fn handle_message(&mut self, msg: AudioPlaybackMessage) -> (step: DecoderStep)
        ensures
            final(self).input() == old(self).input(),
            final(self).output() == old(self).output(),
            final(self).volume() == volume_after(old(self).volume(), msg),
            match msg {
                AudioPlaybackMessage::Quit => step is Stop,
                AudioPlaybackMessage::SetVolume(_) => step is Continue,
                AudioPlaybackMessage::LoadStream(url) => step == DecoderStep::Connect(url),
                AudioPlaybackMessage::StopStream => step is Disconnect,
            },
    {
        proof {
            use_type_invariant(&*self);
        }
        match msg {
            AudioPlaybackMessage::Quit => DecoderStep::Stop,
            AudioPlaybackMessage::SetVolume(volume_percent) => {
                self.volume_percent = volume_percent;
                DecoderStep::Continue
            },
            AudioPlaybackMessage::LoadStream(stream) => DecoderStep::Connect(stream),
            AudioPlaybackMessage::StopStream => DecoderStep::Disconnect,
        }
    }

    /// Whether the input is low enough to read another packet.
    pub fn wants_input(&self) -> (b: bool)
        ensures
            b == (self.input() < DECODE_THRESHOLD),
    {
        self.input_len < DECODE_THRESHOLD
    }

    /// Records `n` decoded samples written after those the input held.
    pub fn record_decoded(&mut self, n: usize)
        requires
            n <= INPUT_CAPACITY - old(self).input(),
        ensures
            final(self).input() == old(self).input() + n,
            final(self).output() == old(self).output(),
            final(self).volume() == old(self).volume(),
            final(self).wf(),
    {
        proof {
            use_type_invariant(&*self);
        }
        self.input_len = self.input_len + n;
        proof {
            use_type_invariant(&*self);
        }
    }

    /// Starts a resampling pass over the whole frames of the input, writing
    /// after the whole frames of the output.
    pub fn start_resample(&self, in_channels: usize, out_channels: usize) -> (run: ResampleRun)
        requires
            in_channels > 0,
            out_channels > 0,
        ensures
            run.in_channels() == in_channels,
            run.out_channels() == out_channels,
            run.total_frames() == self.input() / in_channels as nat,
            run.total_frames() * run.in_channels() <= self.input(),
            run.consumed() == 0,
            run.produced() == self.output() / out_channels as nat,
            run.cap() == (OUTPUT_CAPACITY as nat) / (out_channels as nat),
            run.produced() <= run.cap(),
    {
        proof {
            use_type_invariant(self);
        }
        let total = self.input_len / in_channels;
        let out_cap = OUTPUT_CAPACITY / out_channels;
        let output_offset = self.output_len / out_channels;
        proof {
            let i = self.input_len as int;
            let ic = in_channels as int;
            let o = self.output_len as int;
            let oc = out_channels as int;
            assert((i / ic) * ic <= i) by (nonlinear_arith)
                requires ic > 0, i >= 0;
            assert(o / oc <= (OUTPUT_CAPACITY as int) / oc) by (nonlinear_arith)
                requires oc > 0, 0 <= o <= OUTPUT_CAPACITY;
            assert(((OUTPUT_CAPACITY as int) / oc) * oc <= OUTPUT_CAPACITY) by (nonlinear_arith)
                requires oc > 0;
        }
        ResampleRun {
            in_channels,
            out_channels,
            out_cap,
            total_frames: total,
            input_offset: 0,
            output_offset,
            input_frames_left: total,
        }
    }

    /// Ends a resampling pass: the output now holds the frames written so
    /// far, and the input keeps the frames that were not read, which the
    /// caller moves from the returned range to the front of the input buffer.
    pub fn finish_resample(&mut self, run: &ResampleRun) -> (keep: (usize, usize))
        requires
            run.total_frames() * run.in_channels() <= old(self).input(),
        ensures
            final(self).wf(),
            final(self).volume() == old(self).volume(),
            final(self).output() == run.produced() * run.out_channels(),
            final(self).input() == run.left() * run.in_channels(),
            keep.0 == run.consumed() * run.in_channels(),
            keep.1 == run.total_frames() * run.in_channels(),
            keep.0 <= keep.1 <= old(self).input(),
            keep.1 - keep.0 == final(self).input(),
    {
        proof {
            use_type_invariant(&*self);
            use_type_invariant(run);
            let ic = run.in_channels as int;
            let oc = run.out_channels as int;
            assert(run.output_offset * oc <= run.out_cap * oc) by (nonlinear_arith)
                requires run.output_offset <= run.out_cap, oc > 0;
            assert(run.input_offset * ic <= run.total_frames * ic) by (nonlinear_arith)
                requires run.input_offset <= run.total_frames, ic > 0;
            assert(run.total_frames * ic - run.input_offset * ic == run.input_frames_left * ic)
                by (nonlinear_arith)
                requires run.input_offset + run.input_frames_left == run.total_frames;
        }
        self.output_len = run.output_offset * run.out_channels;
        let start = run.input_offset * run.in_channels;
        let end = run.total_frames * run.in_channels;
        self.input_len = run.input_frames_left * run.in_channels;
        proof {
            use_type_invariant(&*self);
        }
        (start, end)
    }

    /// How many chunks the decoder offers playback: it hands over whole
    /// chunks from the front of the output as long as more than one chunk
    /// would remain after the one handed over.
    pub fn chunks_to_push(&self) -> (n: usize)
        ensures
            n == push_limit(self.output()),
            n == 0 || n * PUSH_CHUNK < self.output(),
            (n + 1) * PUSH_CHUNK >= self.output(),
    {
        proof {
            use_type_invariant(self);
        }
        if self.output_len == 0 {
            0
        } else {
            let n = (self.output_len - 1) / PUSH_CHUNK;
            proof {
                let o = self.output_len as int;
                assert(n * PUSH_CHUNK <= o - 1 && (n + 1) * PUSH_CHUNK >= o) by (nonlinear_arith)
                    requires
                        o >= 1,
                        n == (o - 1) / (PUSH_CHUNK as int),
                ;
            }
            n
        }
    }

    /// Drops the first `pushed` chunks of the output, which playback took;
    /// tells how many samples that is. The caller hands those samples to the
    /// visualisation and moves the rest to the front of the output buffer.
    pub fn drain_pushed(&mut self, pushed: usize) -> (written: usize)
        requires
            pushed <= push_limit(old(self).output()),
        ensures
            written == pushed * PUSH_CHUNK,
            written <= old(self).output(),
            final(self).wf(),
            final(self).output() == old(self).output() - written,
            final(self).input() == old(self).input(),
            final(self).volume() == old(self).volume(),
    {
        proof {
            use_type_invariant(&*self);
            let o = self.output_len as int;
            if o > 0 {
                assert(pushed * PUSH_CHUNK <= o - 1) by (nonlinear_arith)
                    requires
                        o >= 1,
                        pushed <= (o - 1) / (PUSH_CHUNK as int),
                ;
            }
        }
        let written = pushed * PUSH_CHUNK;
        self.output_len = self.output_len - written;
        proof {
            use_type_invariant(&*self);
        }
        written
    }
}

/// How many chunks the decoder offers playback when its output holds `output` samples.
pub open spec fn push_limit(output: nat) -> nat {
    if output == 0 {
        0
    } else {
        ((output - 1) as nat) / (PUSH_CHUNK as nat)
    }
}

/// One pass of the resampler over the decoder's buffers, counted in frames.
pub struct ResampleRun {
    in_channels: usize,
    out_channels: usize,
    out_cap: usize,
    total_frames: usize,
    input_offset: usize,
    output_offset: usize,
    input_frames_left: usize,
}

impl ResampleRun {
    pub closed spec fn in_channels(&self) -> nat {
        self.in_channels as nat
    }

    pub closed spec fn out_channels(&self) -> nat {
        self.out_channels as nat
    }

    /// Frames the output buffer has room for.
    pub closed spec fn cap(&self) -> nat {
        self.out_cap as nat
    }

    /// Whole input frames at the start of the pass.
    pub closed spec fn total_frames(&self) -> nat {
        self.total_frames as nat
    }

    /// Input frames consumed so far.
    pub closed spec fn consumed(&self) -> nat {
        self.input_offset as nat
    }

    /// Output frames written so far, counting those there before the pass.
    pub closed spec fn produced(&self) -> nat {
        self.output_offset as nat
    }

    /// Input frames not consumed yet.
    pub closed spec fn left(&self) -> nat {
        self.input_frames_left as nat
    }

    /// Every input frame is either consumed or left, and both buffers keep
    /// within their capacity.
    #[verifier::type_invariant]
    spec fn inv(&self) -> bool {
        &&& self.in_channels > 0
        &&& self.out_channels > 0
        &&& self.input_offset + self.input_frames_left == self.total_frames
        &&& self.total_frames * self.in_channels <= INPUT_CAPACITY
        &&& self.output_offset <= self.out_cap
        &&& self.out_cap * self.out_channels <= OUTPUT_CAPACITY
    }

    pub fn input_offset(&self) -> (n: usize)
        ensures
            n == self.consumed(),
            n <= self.total_frames(),
    {
        proof {
            use_type_invariant(self);
        }
        self.input_offset
    }

    pub fn output_offset(&self) -> (n: usize)
        ensures
            n == self.produced(),
            n <= self.cap(),
    {
        proof {
            use_type_invariant(self);
        }
        self.output_offset
    }

    pub fn out_cap(&self) -> (n: usize)
        ensures
            n == self.cap(),
    {
        self.out_cap
    }

    pub fn frames_left(&self) -> (n: usize)
        ensures
            n == self.left(),
    {
        self.input_frames_left
    }

    /// Whether the frames of this pass are still within the input that `state` holds.
    pub fn within(&self, state: &DecoderState) -> (b: bool)
        ensures
            b == (self.total_frames() * self.in_channels() <= state.input()),
    {
        proof {
            use_type_invariant(self);
            assert(self.total_frames * self.in_channels <= INPUT_CAPACITY);
        }
        self.total_frames * self.in_channels <= state.input_len()
    }

    /// Whether the resampler may run once more: enough input for its next
    /// chunk, and room in the output for what that chunk produces.
    pub fn fits(&self, frames_needed: usize, output_frames_needed: usize) -> (b: bool)
        ensures
            b == (self.left() >= frames_needed && self.produced() + output_frames_needed
                < self.cap()),
    {
        proof {
            use_type_invariant(self);
        }
        self.input_frames_left >= frames_needed && output_frames_needed < self.out_cap
            - self.output_offset
    }

    /// Records one run of the resampler that read `frames_read` frames and
    /// wrote `frames_written`.
    pub fn advance(&mut self, frames_read: usize, frames_written: usize)
        requires
            frames_read <= old(self).left(),
            old(self).produced() + frames_written <= old(self).cap(),
        ensures
            final(self).consumed() == old(self).consumed() + frames_read,
            final(self).left() == old(self).left() - frames_read,
            final(self).produced() == old(self).produced() + frames_written,
            final(self).total_frames() == old(self).total_frames(),
            final(self).in_channels() == old(self).in_channels(),
            final(self).out_channels() == old(self).out_channels(),
            final(self).cap() == old(self).cap(),
            final(self).produced() <= final(self).cap(),
    {
        proof {
            use_type_invariant(&*self);
        }
        *self = ResampleRun {
            input_offset: self.input_offset + frames_read,
            output_offset: self.output_offset + frames_written,
            input_frames_left: self.input_frames_left - frames_read,
            ..*self
        };
    }
}

} // verus!
