//! The rate converter: a session around a fixed-block FFT resampler, and the
//! Bypass/Active state machine that decides when resampling happens at all.
//!
//! A session owns a `ChannelBuffer` sized to the resampler's required input
//! block, the resampler instance, and the most recently produced interleaved
//! output block.  It exists only while the input and output rates differ; with
//! equal rates the converter passes the decode source through untouched.

use crate::buffer::ChannelBuffer;
use crate::source::{stream_left, DecodeSource, DecoderError, TailSignal};
use vstd::prelude::*;

verus! {

#[verifier::external_type_specification]
#[verifier::external_body]
#[verifier::reject_recursive_types(T)]
pub struct ExFftFixedInOut<T>(rubato::FftFixedInOut<T>);

/// Relies on rubato::FftFixedInOut::new, Resampler::input_frames_next and
/// Resampler::output_frames_next: construction fails only when a sample rate
/// is zero, and a resampler built from positive rates and a positive block
/// hint needs a positive fixed number of input frames per block and yields a
/// positive fixed number of output frames.  Returns the resampler together
/// with those two block sizes.  The rate bounds keep the constructor's block
/// size arithmetic — the sizes stay within `2 * block_hint` FFT chunks of
/// `rate / gcd` frames each — inside `usize`, so it cannot panic.
#[verifier::external_body]
fn make_resampler<T: rubato::Sample>(
    in_rate: usize,
    out_rate: usize,
    block_hint: usize,
    channels: usize,
) -> (r: Option<(rubato::FftFixedInOut<T>, usize, usize)>)
    requires
        in_rate >= 1,
        out_rate >= 1,
        1 <= block_hint <= 4096,
        in_rate <= usize::MAX as int / (4 * block_hint),
        out_rate <= usize::MAX as int / (4 * block_hint),
    ensures
        r is Some,
        r matches Some(t) ==> t.1 >= 1 && t.2 >= 1,
{
    match rubato::FftFixedInOut::<T>::new(in_rate, out_rate, block_hint, channels) {
        Ok(res) => {
            let n_in = rubato::Resampler::input_frames_next(&res);
            let n_out = rubato::Resampler::output_frames_next(&res);
            Some((res, n_in, n_out))
        }
        Err(_) => None,
    }
}

/// Relies on rubato's Resampler::process_into_buffer for FftFixedInOut: it
/// returns an error (never panics) on any buffer-shape mismatch, and on
/// success — with every input channel non-empty, so every channel counts as
/// active — it has resized every output channel to the resampler's fixed
/// output block size and filled it with resampled data.
#[verifier::external_body]
fn resample_into<T: rubato::Sample>(
    resampler: &mut rubato::FftFixedInOut<T>,
    input: &Vec<Vec<T>>,
    output: &mut Vec<Vec<T>>,
) -> (ok: bool)
    requires
        forall|c: int| 0 <= c < input@.len() ==> (#[trigger] input@[c])@.len() >= 1,
    ensures
        ok ==> {
            &&& final(output)@.len() == input@.len()
            &&& forall|c: int|
                0 <= c < final(output)@.len() ==> (#[trigger] final(output)@[c])@.len()
                    == final(output)@[0]@.len()
        },
{
    rubato::Resampler::process_into_buffer(
        resampler,
        input.as_slice(),
        output.as_mut_slice(),
        None,
    ).is_ok()
}

/// Rebuilds an interleaved block from uniform per-channel buffers: frame `f`
/// of channel `c` lands at index `f * channels + c`.
pub fn fill_from_deinterleaved<T: Copy>(out: &mut Vec<T>, bufs: &Vec<Vec<T>>)
    requires
        bufs@.len() >= 1,
        forall|c: int| 0 <= c < bufs@.len() ==> (#[trigger] bufs@[c])@.len() == bufs@[0]@.len(),
    ensures
        final(out)@.len() == bufs@.len() * bufs@[0]@.len(),
        forall|f: int, c: int|
            0 <= f < bufs@[0]@.len() && 0 <= c < bufs@.len() ==> #[trigger] final(out)@[f * bufs@.len()
                + c] == bufs@[c]@[f],
{
    let channels = bufs.len();
    let frames = bufs[0].len();
    out.clear();
    proof {
        assert(channels * frames == frames * channels) by (nonlinear_arith);
    }
    let mut f: usize = 0;
    while f < frames
        invariant
            channels == bufs@.len(),
            frames == bufs@[0]@.len(),
            1 <= channels,
            forall|c: int| 0 <= c < channels ==> (#[trigger] bufs@[c])@.len() == frames,
            f <= frames,
            out@.len() == f * channels,
            f * channels <= frames * channels,
            forall|ff: int, c: int|
                0 <= ff < f && 0 <= c < channels ==> #[trigger] out@[ff * channels + c]
                    == bufs@[c]@[ff],
        decreases frames - f,
    {
        let ghost row_start = out@.len() as int;
        proof {
            assert(row_start == f * channels);
            assert((f + 1) * channels == f * channels + channels) by (nonlinear_arith);
            assert(f + 1 <= frames ==> (f + 1) * channels <= frames * channels)
                by (nonlinear_arith);
        }
        let mut c: usize = 0;
        while c < channels
            invariant
                channels == bufs@.len(),
                frames == bufs@[0]@.len(),
                1 <= channels,
                forall|cc: int| 0 <= cc < channels ==> (#[trigger] bufs@[cc])@.len() == frames,
                f < frames,
                c <= channels,
                row_start == f * channels,
                out@.len() == row_start + c,
                row_start + channels <= frames * channels,
                forall|ff: int, cc: int|
                    0 <= ff < f && 0 <= cc < channels ==> #[trigger] out@[ff * channels + cc]
                        == bufs@[cc]@[ff],
                forall|cc: int| 0 <= cc < c ==> #[trigger] out@[row_start + cc] == bufs@[cc]@[f as int],
            decreases channels - c,
        {
            out.push(bufs[c][f]);
            proof {
                assert forall|ff: int, cc: int|
                    0 <= ff < f && 0 <= cc < channels implies #[trigger] out@[ff * channels + cc]
                    == bufs@[cc]@[ff] by {
                    assert(ff * channels + cc < row_start) by (nonlinear_arith)
                        requires
                            0 <= ff < f,
                            0 <= cc < channels,
                            row_start == f * channels,
                    ;
                }
            }
            c += 1;
        }
        f += 1;
        proof {
            assert(out@.len() == f * channels) by (nonlinear_arith)
                requires
                    out@.len() == row_start + channels,
                    row_start == (f - 1) * channels,
            ;
            assert forall|ff: int, cc: int|
                0 <= ff < f && 0 <= cc < channels implies #[trigger] out@[ff * channels + cc]
                == bufs@[cc]@[ff] by {
                if ff == f - 1 {
                    assert(ff * channels + cc == row_start + cc);
                }
            }
        }
    }
}

/// One resampling session: the accumulator for the resampler's fixed input
/// block, the resampler itself, its per-channel output, the interleaved
/// output block, and the cursor into the decode source's current chunk.
#[verifier::reject_recursive_types(T)]
struct ResampleSession<T> {
    written: usize,
    in_buf: ChannelBuffer<T>,
    resampler: rubato::FftFixedInOut<T>,
    resampler_buf: Vec<Vec<T>>,
    out_buf: Vec<T>,
    output_frames: usize,
}

impl<T: Copy + rubato::Sample> ResampleSession<T> {
    spec fn wf(&self) -> bool {
        &&& self.in_buf.well_formed()
        &&& self.in_buf.spec_frames() >= 1
        &&& self.output_frames >= 1
        &&& (self.out_buf@.len() == self.output_frames * self.in_buf.spec_channels()
            || self.out_buf@.len() == 0)
    }

    /// The fixed length of one interleaved output block.
    spec fn block_len(&self) -> int {
        self.output_frames * self.in_buf.spec_channels()
    }

    /// The session shape that every operation but construction preserves.
    spec fn same_config(&self, other: &Self) -> bool {
        &&& self.in_buf.same_shape(&other.in_buf)
        &&& self.output_frames == other.output_frames
    }

    /// Runs the resampler once over the accumulator's per-channel regions and
    /// rebuilds the interleaved output block; the accumulator is not touched.
    fn run_resampler(&mut self) -> (r: Result<(), DecoderError>)
        requires
            old(self).wf(),
        ensures
            final(self).wf(),
            final(self).same_config(old(self)),
            final(self).in_buf == old(self).in_buf,
            final(self).written == old(self).written,
            r matches Ok(u) ==> final(self).out_buf@.len() == final(self).block_len(),
            r matches Err(e) ==> e == DecoderError::ResamplerFailed && final(self).out_buf
                == old(self).out_buf,
    {
        let ok = resample_into(&mut self.resampler, self.in_buf.inner(), &mut self.resampler_buf);
        if !ok {
            return Err(DecoderError::ResamplerFailed);
        }
        let channels = self.in_buf.channels();
        if self.resampler_buf.len() != channels {
            return Err(DecoderError::ResamplerFailed);
        }
        if self.resampler_buf[0].len() != self.output_frames {
            return Err(DecoderError::ResamplerFailed);
        }
        fill_from_deinterleaved(&mut self.out_buf, &self.resampler_buf);
        proof {
            assert(self.out_buf@.len() == self.block_len()) by (nonlinear_arith)
                requires
                    self.out_buf@.len() == self.resampler_buf@.len()
                        * self.resampler_buf@[0]@.len(),
                    self.resampler_buf@.len() == self.in_buf.spec_channels(),
                    self.resampler_buf@[0]@.len() == self.output_frames,
                    self.block_len() == self.output_frames * self.in_buf.spec_channels(),
            ;
        }
        Ok(())
    }

    /// Pulls chunks from the decode source and feeds the accumulator until it
    /// holds one full input block, resamples that block into the output
    /// buffer and resets the accumulator.  When the source ends before the
    /// block fills, returns `Ok(None)` without producing output and without
    /// padding: flushing is a separate, explicit step.
    fn next(&mut self, decoder: &mut DecodeSource<T>) -> (r: Result<Option<()>, DecoderError>)
        requires
            old(self).wf(),
            old(decoder).well_formed(),
            old(self).written <= old(decoder).current_chunk().len(),
        ensures
            final(self).wf(),
            final(self).same_config(old(self)),
            final(decoder).well_formed(),
            final(decoder).same_stream(old(decoder)),
            final(self).written <= final(decoder).current_chunk().len(),
            r == Ok::<Option<()>, DecoderError>(Some(())) ==> {
                &&& final(self).in_buf.spec_position() == 0
                &&& final(self).out_buf@.len() == final(self).block_len()
                &&& stream_left(old(decoder), old(self).written as int) - stream_left(
                    final(decoder),
                    final(self).written as int,
                ) == old(self).in_buf.capacity() - old(self).in_buf.spec_position()
            },
            r == Ok::<Option<()>, DecoderError>(None) ==> {
                &&& old(decoder).spec_tail() == TailSignal::EndOfStream
                &&& final(self).out_buf@ == old(self).out_buf@
                &&& stream_left(final(decoder), final(self).written as int) == 0
                &&& final(self).in_buf.spec_position() - old(self).in_buf.spec_position()
                    == stream_left(old(decoder), old(self).written as int)
                &&& final(self).in_buf.spec_position() < final(self).in_buf.capacity()
            },
            r matches Err(e) ==> final(self).out_buf@ == old(self).out_buf@,
            stream_left(old(decoder), old(self).written as int) < old(self).in_buf.capacity()
                - old(self).in_buf.spec_position() ==> r == (match old(decoder).spec_tail() {
                TailSignal::EndOfStream => Ok::<Option<()>, DecoderError>(None),
                TailSignal::ResetRequired => Err::<Option<()>, DecoderError>(
                    DecoderError::ResetRequired,
                ),
                TailSignal::Failed => Err::<Option<()>, DecoderError>(DecoderError::DecodeFailed),
            }),
            stream_left(old(decoder), old(self).written as int) >= old(self).in_buf.capacity()
                - old(self).in_buf.spec_position() ==> (r == Ok::<Option<()>, DecoderError>(
                Some(()),
            ) || r == Err::<Option<()>, DecoderError>(DecoderError::ResamplerFailed)),
    {
        proof {
            crate::source::lemma_total_len_nonneg(
                old(decoder).spec_chunks(),
                old(decoder).spec_index() + 1,
            );
        }
        while !self.in_buf.is_full()
            invariant
                self.wf(),
                decoder.well_formed(),
                self.same_config(old(self)),
                self.out_buf@ == old(self).out_buf@,
                decoder.same_stream(old(decoder)),
                self.written <= decoder.current_chunk().len(),
                old(self).in_buf.spec_position() <= self.in_buf.spec_position(),
                stream_left(decoder, self.written as int) >= 0,
                stream_left(decoder, self.written as int) + self.in_buf.spec_position()
                    == stream_left(old(decoder), old(self).written as int) + old(self).in_buf.spec_position(),
            decreases
                    self.in_buf.capacity() - self.in_buf.spec_position(),
                    decoder.spec_chunks().len() - decoder.spec_index(),
        {
            proof {
                crate::source::lemma_total_len_nonneg(
                    decoder.spec_chunks(),
                    decoder.spec_index() + 1,
                );
            }
            let cur_len = decoder.current().len();
            let n = self.in_buf.fill_from_slice(decoder.current().as_slice(), self.written);
            self.written = self.written + n;
            if !self.in_buf.is_full() && self.written == cur_len {
                match decoder.next() {
                    Ok(Some(_)) => {
                        self.written = 0;
                        proof {
                            crate::source::lemma_total_len_nonneg(
                                decoder.spec_chunks(),
                                decoder.spec_index() + 1,
                            );
                        }
                    }
                    Ok(None) => {
                        return Ok(None);
                    }
                    Err(e) => {
                        return Err(e);
                    }
                }
            }
        }
        match self.run_resampler() {
            Ok(_) => {}
            Err(e) => {
                return Err(e);
            }
        }
        self.in_buf.reset();
        Ok(Some(()))
    }

    /// Zero-pads the unfilled remainder, runs the resampler once more and
    /// resets the accumulator; with nothing accumulated it reports `false`
    /// and does no work.
    fn flush(&mut self) -> (r: Result<bool, DecoderError>)
        requires
            old(self).wf(),
        ensures
            final(self).wf(),
            final(self).same_config(old(self)),
            final(self).written == old(self).written,
            old(self).in_buf.spec_position() == 0 ==> r == Ok::<bool, DecoderError>(false)
                && final(self).out_buf@ == old(self).out_buf@ && final(self).in_buf.spec_position()
                == 0,
            old(self).in_buf.spec_position() > 0 ==> {
                &&& (r == Ok::<bool, DecoderError>(true) ==> final(self).out_buf@.len()
                    == final(self).block_len() && final(self).block_len() >= 1
                    && final(self).in_buf.spec_position() == 0)
                &&& (r matches Err(e) ==> e == DecoderError::ResamplerFailed
                    && final(self).out_buf@ == old(self).out_buf@)
                &&& r != Ok::<bool, DecoderError>(false)
            },
    {
        if self.in_buf.position() > 0 {
            self.in_buf.silence_remainder();
            match self.run_resampler() {
                Ok(_) => {}
                Err(e) => {
                    return Err(e);
                }
            }
            self.in_buf.reset();
            proof {
                assert(self.block_len() >= 1) by (nonlinear_arith)
                    requires
                        self.output_frames >= 1,
                        self.in_buf.spec_channels() >= 1,
                        self.block_len() == self.output_frames * self.in_buf.spec_channels(),
                ;
            }
            Ok(true)
        } else {
            Ok(false)
        }
    }
}

/// Exactly one of: pass decoded data through unchanged, or resample it
/// through an owned session.
#[verifier::reject_recursive_types(T)]
enum ConverterState<T> {
    Bypass,
    Active(ResampleSession<T>),
}

/// The rate-converter state machine.  It tracks the sink's fixed output rate
/// and the last observed decoder rate; on (re)initialization it decides
/// whether to stay in passthrough, reuse the existing resampler session, or
/// build a new one, and it exposes one current output block plus an advance
/// operation to the playback loop.
#[verifier::reject_recursive_types(T)]
pub struct ResampledDecoder<T> {
    state: ConverterState<T>,
    in_sample_rate: usize,
    out_sample_rate: usize,
    channels: usize,
    silence: T,
}

/// The input block length the resampler is asked for; it may pick another.
const RESAMPLER_BLOCK_HINT: usize = 1024;

impl<T: Copy + rubato::Sample> ResampledDecoder<T> {
    /// The last observed decoder rate; mutated only by `initialize`.
    pub closed spec fn spec_in_rate(&self) -> int {
        self.in_sample_rate as int
    }

    /// The fixed sink rate.
    pub closed spec fn spec_out_rate(&self) -> int {
        self.out_sample_rate as int
    }

    pub closed spec fn spec_channels(&self) -> int {
        self.channels as int
    }

    pub closed spec fn spec_silence(&self) -> T {
        self.silence
    }

    /// True while a resampler session exists.
    pub closed spec fn is_active(&self) -> bool {
        match self.state {
            ConverterState::Active(_) => true,
            ConverterState::Bypass => false,
        }
    }

    pub open spec fn is_bypass(&self) -> bool {
        !self.is_active()
    }

    /// The session's most recently produced interleaved output block; empty
    /// in bypass.
    pub closed spec fn session_out(&self) -> Seq<T> {
        match self.state {
            ConverterState::Active(s) => s.out_buf@,
            ConverterState::Bypass => Seq::empty(),
        }
    }

    /// Interleaved samples accumulated towards the next input block.
    pub closed spec fn session_position(&self) -> int {
        match self.state {
            ConverterState::Active(s) => s.in_buf.spec_position(),
            ConverterState::Bypass => 0,
        }
    }

    /// The session's cursor into the decode source's current chunk.
    pub closed spec fn session_written(&self) -> int {
        match self.state {
            ConverterState::Active(s) => s.written as int,
            ConverterState::Bypass => 0,
        }
    }

    /// One input block, in interleaved samples.
    pub closed spec fn session_capacity(&self) -> int {
        match self.state {
            ConverterState::Active(s) => s.in_buf.capacity(),
            ConverterState::Bypass => 0,
        }
    }

    /// The fixed length of one interleaved output block.
    pub closed spec fn block_len(&self) -> int {
        match self.state {
            ConverterState::Active(s) => s.block_len(),
            ConverterState::Bypass => 0,
        }
    }

    pub closed spec fn well_formed(&self) -> bool {
        &&& 1 <= self.channels
        &&& 1 <= self.out_sample_rate
        &&& 1 <= self.in_sample_rate
        &&& match self.state {
            ConverterState::Bypass => self.in_sample_rate == self.out_sample_rate,
            ConverterState::Active(s) => {
                &&& self.in_sample_rate != self.out_sample_rate
                &&& s.wf()
                &&& s.in_buf.spec_channels() == self.channels
                &&& s.in_buf.spec_silence() == self.silence
            },
        }
    }

    /// The session's cursor points into the decode source's current chunk.
    /// `initialize` establishes this pairing; every decode call keeps it.
    pub open spec fn in_sync(&self, decoder: &DecodeSource<T>) -> bool {
        self.is_active() ==> self.session_written() <= decoder.current_chunk().len()
    }

    /// True when `self` still owns the very session `other` owned — the same
    /// resampler instance and the same buffers — with only the chunk cursor
    /// reset to zero.
    pub closed spec fn reuses_session_of(&self, other: &Self) -> bool {
        match (self.state, other.state) {
            (ConverterState::Active(a), ConverterState::Active(b)) => {
                &&& a.resampler == b.resampler
                &&& a.in_buf == b.in_buf
                &&& a.resampler_buf == b.resampler_buf
                &&& a.out_buf == b.out_buf
                &&& a.output_frames == b.output_frames
                &&& a.written == 0
            },
            _ => false,
        }
    }

    /// Law: a well-formed converter is in bypass exactly when the rates it
    /// was last initialized for are equal.
    pub proof fn lemma_bypass_iff_rates_equal(&self)
        requires
            self.well_formed(),
        ensures
            self.is_bypass() <==> self.spec_in_rate() == self.spec_out_rate(),
    {
    }

    pub fn new(out_sample_rate: usize, channels: usize, silence: T) -> (s: Self)
        requires
            1 <= out_sample_rate,
            1 <= channels,
        ensures
            s.well_formed(),
            s.is_bypass(),
            s.spec_in_rate() == out_sample_rate,
            s.spec_out_rate() == out_sample_rate,
            s.spec_channels() == channels,
            s.spec_silence() == silence,
    {
        ResampledDecoder {
            state: ConverterState::Bypass,
            in_sample_rate: out_sample_rate,
            out_sample_rate,
            channels,
            silence,
        }
    }

    pub fn in_sample_rate(&self) -> (r: usize)
        ensures
            r == self.spec_in_rate(),
    {
        self.in_sample_rate
    }

    pub fn out_sample_rate(&self) -> (r: usize)
        ensures
            r == self.spec_out_rate(),
    {
        self.out_sample_rate
    }

    /// The current output block: in bypass the decode source's own current
    /// chunk, untouched; in an active session the most recently resampled
    /// block.  Stable until the next `decode_next_frame` or `flush`.
    pub fn current<'a>(&'a self, decoder: &'a DecodeSource<T>) -> (r: &'a Vec<T>)
        requires
            self.well_formed(),
            decoder.well_formed(),
        ensures
            self.is_bypass() ==> r@ == decoder.current_chunk(),
            self.is_active() ==> r@ == self.session_out(),
    {
        match &self.state {
            ConverterState::Active(s) => &s.out_buf,
            ConverterState::Bypass => decoder.current(),
        }
    }

    /// Reconfigures the converter for a (new) decode source, following the
    /// transition table: equal rates mean bypass; a rate equal to the current
    /// session's input rate keeps that session and only rewinds its chunk
    /// cursor; any other rate discards the session and builds a fresh one,
    /// immediately pulling one block so that `current` is filled.
    pub fn initialize(&mut self, decoder: &mut DecodeSource<T>) -> (r: Result<(), DecoderError>)
        requires
            old(self).well_formed(),
            old(decoder).well_formed(),
        ensures
            final(self).well_formed(),
            final(decoder).well_formed(),
            final(decoder).same_stream(old(decoder)),
            final(self).spec_out_rate() == old(self).spec_out_rate(),
            final(self).spec_channels() == old(self).spec_channels(),
            final(self).spec_silence() == old(self).spec_silence(),
            r != Err::<(), DecoderError>(DecoderError::ResamplerFailed) ==> {
                &&& final(self).spec_in_rate() == old(decoder).spec_rate()
                &&& (final(self).is_bypass() <==> old(decoder).spec_rate() == old(self).spec_out_rate())
                &&& final(self).in_sync(final(decoder))
            },
            old(decoder).spec_rate() == old(self).spec_out_rate() ==> r == Ok::<(), DecoderError>(
                (),
            ) && *final(decoder) == *old(decoder),
            (old(decoder).spec_rate() != old(self).spec_out_rate() && old(self).is_active() && old(decoder).spec_rate() == old(self).spec_in_rate()) ==> {
                &&& r == Ok::<(), DecoderError>(())
                &&& final(self).reuses_session_of(old(self))
                &&& *final(decoder) == *old(decoder)
            },
            (old(decoder).spec_rate() != old(self).spec_out_rate() && !(old(self).is_active()
                && old(decoder).spec_rate() == old(self).spec_in_rate())) ==> {
                &&& (r == Ok::<(), DecoderError>(()) ==> {
                    &&& final(self).is_active()
                    &&& (stream_left(old(decoder), 0) >= final(self).session_capacity()
                        ==> final(self).session_out().len() == final(self).block_len()
                        && final(self).block_len() >= 1)
                    &&& (stream_left(old(decoder), 0) < final(self).session_capacity()
                        ==> old(decoder).spec_tail() == TailSignal::EndOfStream)
                })
                &&& (r matches Err(e) && e != DecoderError::ResamplerFailed ==> {
                    &&& final(self).is_active()
                    &&& stream_left(old(decoder), 0) < final(self).session_capacity()
                })
            },
    {
        let rate = decoder.sample_rate();
        if rate == self.out_sample_rate {
            self.in_sample_rate = rate;
            self.state = ConverterState::Bypass;
            return Ok(());
        }
        let reuse = match &self.state {
            ConverterState::Active(_) => rate == self.in_sample_rate,
            ConverterState::Bypass => false,
        };
        if reuse {
            self.in_sample_rate = rate;
            match &mut self.state {
                ConverterState::Active(s) => {
                    s.written = 0;
                }
                ConverterState::Bypass => {}
            }
            return Ok(());
        }
        self.build_session(decoder, rate)
    }

    /// Builds a fresh session for `rate`, installs it, and primes it with one
    /// pulled block.  A refused construction leaves the converter untouched.
    fn build_session(&mut self, decoder: &mut DecodeSource<T>, rate: usize) -> (r: Result<
        (),
        DecoderError,
    >)
        requires
            old(self).well_formed(),
            old(decoder).well_formed(),
            1 <= rate,
            rate != old(self).spec_out_rate(),
        ensures
            final(self).well_formed(),
            final(decoder).well_formed(),
            final(decoder).same_stream(old(decoder)),
            final(self).spec_out_rate() == old(self).spec_out_rate(),
            final(self).spec_channels() == old(self).spec_channels(),
            final(self).spec_silence() == old(self).spec_silence(),
            r != Err::<(), DecoderError>(DecoderError::ResamplerFailed) ==> {
                &&& final(self).is_active()
                &&& final(self).spec_in_rate() == rate
                &&& final(self).in_sync(final(decoder))
            },
            r == Ok::<(), DecoderError>(()) ==> {
                &&& (stream_left(old(decoder), 0) >= final(self).session_capacity() ==> final(self).session_out().len() == final(self).block_len() && final(self).block_len() >= 1)
                &&& (stream_left(old(decoder), 0) < final(self).session_capacity() ==> old(decoder).spec_tail() == TailSignal::EndOfStream)
            },
            r matches Err(e) && e != DecoderError::ResamplerFailed ==> {
                &&& final(self).is_active()
                &&& stream_left(old(decoder), 0) < final(self).session_capacity()
            },
    {
        if rate > usize::MAX / (4 * RESAMPLER_BLOCK_HINT) || self.out_sample_rate > usize::MAX / (4
            * RESAMPLER_BLOCK_HINT) {
            return Err(DecoderError::ResamplerFailed);
        }
        let pair = make_resampler::<T>(
            rate,
            self.out_sample_rate,
            RESAMPLER_BLOCK_HINT,
            self.channels,
        );
        let (res, n_in, n_out) = match pair {
            Some(t) => t,
            None => {
                proof {
                    assert(false);
                }
                return Err(DecoderError::ResamplerFailed);
            }
        };
        match n_in.checked_mul(self.channels) {
            Some(_) => {}
            None => {
                return Err(DecoderError::ResamplerFailed);
            }
        }
        let in_buf = ChannelBuffer::new(n_in, self.channels, self.silence);
        let mut resampler_buf: Vec<Vec<T>> = Vec::new();
        let mut c: usize = 0;
        while c < self.channels
            invariant
                resampler_buf@.len() == c,
            decreases self.channels - c,
        {
            resampler_buf.push(Vec::new());
            c += 1;
        }
        let session = ResampleSession {
            written: 0,
            in_buf,
            resampler: res,
            resampler_buf,
            out_buf: Vec::new(),
            output_frames: n_out,
        };
        self.in_sample_rate = rate;
        self.state = ConverterState::Active(session);
        proof {
            assert(self.block_len() >= 1) by (nonlinear_arith)
                requires
                    self.block_len() == n_out * (self.channels as int),
                    n_out >= 1,
                    self.channels >= 1,
            ;
        }
        match self.decode_next_frame(decoder) {
            Ok(_) => Ok(()),
            Err(e) => Err(e),
        }
    }

    /// Advances the pipeline by one step: in bypass it is the decode source's
    /// own `next`, byte-identical and with no copy; in an active session it
    /// assembles and resamples the next block.
    pub fn decode_next_frame(&mut self, decoder: &mut DecodeSource<T>) -> (r: Result<
        Option<()>,
        DecoderError,
    >)
        requires
            old(self).well_formed(),
            old(decoder).well_formed(),
            old(self).in_sync(old(decoder)),
        ensures
            final(self).well_formed(),
            final(decoder).well_formed(),
            final(decoder).same_stream(old(decoder)),
            final(self).in_sync(final(decoder)),
            final(self).spec_in_rate() == old(self).spec_in_rate(),
            final(self).spec_out_rate() == old(self).spec_out_rate(),
            final(self).spec_channels() == old(self).spec_channels(),
            final(self).spec_silence() == old(self).spec_silence(),
            final(self).is_active() == old(self).is_active(),
            final(self).block_len() == old(self).block_len(),
            final(self).session_capacity() == old(self).session_capacity(),
            old(self).is_bypass() ==> {
                &&& *final(self) == *old(self)
                &&& (!old(decoder).at_last_chunk() ==> r == Ok::<Option<()>, DecoderError>(
                    Some(()),
                ) && final(decoder).spec_index() == old(decoder).spec_index() + 1)
                &&& (old(decoder).at_last_chunk() ==> final(decoder).spec_index() == old(decoder).spec_index() && r == (match old(decoder).spec_tail() {
                    TailSignal::EndOfStream => Ok::<Option<()>, DecoderError>(None),
                    TailSignal::ResetRequired => Err::<Option<()>, DecoderError>(
                        DecoderError::ResetRequired,
                    ),
                    TailSignal::Failed => Err::<Option<()>, DecoderError>(
                        DecoderError::DecodeFailed,
                    ),
                }))
            },
            old(self).is_active() ==> {
                &&& (r == Ok::<Option<()>, DecoderError>(Some(())) ==> final(self).session_out().len() == old(self).block_len() && final(self).session_position()
                    == 0 && stream_left(old(decoder), old(self).session_written()) - stream_left(
                    final(decoder),
                    final(self).session_written(),
                ) == old(self).session_capacity() - old(self).session_position())
                &&& (r == Ok::<Option<()>, DecoderError>(None) ==> old(decoder).spec_tail()
                    == TailSignal::EndOfStream && final(self).session_out() == old(self).session_out() && stream_left(final(decoder), final(self).session_written()) == 0
                    && final(self).session_position() - old(self).session_position()
                    == stream_left(old(decoder), old(self).session_written()) && final(self).session_position() < final(self).session_capacity())
                &&& (r matches Err(e) ==> final(self).session_out() == old(self).session_out())
                &&& (stream_left(old(decoder), old(self).session_written()) < old(self).session_capacity() - old(self).session_position() ==> r == (match old(decoder).spec_tail() {
                    TailSignal::EndOfStream => Ok::<Option<()>, DecoderError>(None),
                    TailSignal::ResetRequired => Err::<Option<()>, DecoderError>(
                        DecoderError::ResetRequired,
                    ),
                    TailSignal::Failed => Err::<Option<()>, DecoderError>(
                        DecoderError::DecodeFailed,
                    ),
                }))
                &&& (stream_left(old(decoder), old(self).session_written()) >= old(self).session_capacity() - old(self).session_position() ==> (r == Ok::<
                    Option<()>,
                    DecoderError,
                >(Some(())) || r == Err::<Option<()>, DecoderError>(DecoderError::ResamplerFailed)))
            },
    {
        match &mut self.state {
            ConverterState::Bypass => decoder.next(),
            ConverterState::Active(s) => s.next(decoder),
        }
    }

    /// Flushes a pending partial input block: pads it with silence, resamples
    /// it, and makes it the current block, reporting `true`.  With nothing
    /// pending — and always in bypass — it reports `false` and the converter
    /// is untouched.
    pub fn flush(&mut self) -> (r: Result<bool, DecoderError>)
        requires
            old(self).well_formed(),
        ensures
            final(self).well_formed(),
            final(self).spec_in_rate() == old(self).spec_in_rate(),
            final(self).spec_out_rate() == old(self).spec_out_rate(),
            final(self).spec_channels() == old(self).spec_channels(),
            final(self).spec_silence() == old(self).spec_silence(),
            final(self).is_active() == old(self).is_active(),
            final(self).block_len() == old(self).block_len(),
            final(self).session_capacity() == old(self).session_capacity(),
            final(self).session_written() == old(self).session_written(),
            old(self).is_bypass() ==> r == Ok::<bool, DecoderError>(false)
                && *final(self) == *old(self),
            old(self).is_active() && old(self).session_position() == 0 ==> r == Ok::<
                bool,
                DecoderError,
            >(false) && final(self).session_out() == old(self).session_out() && final(self).session_position() == 0,
            old(self).is_active() && old(self).session_position() > 0 ==> {
                &&& (r == Ok::<bool, DecoderError>(true) ==> final(self).session_out().len()
                    == old(self).block_len() && old(self).block_len() >= 1
                    && final(self).session_position() == 0)
                &&& (r matches Err(e) ==> e == DecoderError::ResamplerFailed
                    && final(self).session_out() == old(self).session_out())
                &&& r != Ok::<bool, DecoderError>(false)
            },
    {
        match &mut self.state {
            ConverterState::Bypass => Ok(false),
            ConverterState::Active(s) => s.flush(),
        }
    }
}

} // verus!
