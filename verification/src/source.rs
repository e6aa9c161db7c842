//! The decode source: a buffered stream of interleaved PCM chunks.
//!
//! Decoding a container format is I/O and stays outside the library; the
//! pipeline consumes a `DecodeSource`, which holds the decoded chunks of one
//! track, the rate the decoder declared for them, and the signal the decoder
//! raised once the chunks ran out: a normal end of stream, a recoverable
//! reset condition, or a fatal failure.

use vstd::prelude::*;

verus! {

/// A decode failure, as the decode source reports it.
#[derive(Clone, Copy, Debug, PartialEq, Eq, Structural)]
pub enum DecoderError {
    /// Recoverable: the decode source must be rebuilt for the same input and
    /// decoding resumed from the start of that track.
    ResetRequired,
    /// Any other decode failure; it aborts the whole playback session.
    DecodeFailed,
    /// The resampler refused its configuration or its buffers: a violated
    /// internal invariant, surfaced as a fatal error rather than a panic.
    ResamplerFailed,
}

/// What the decoder raised after its last chunk.
#[derive(Clone, Copy, Debug, PartialEq, Eq, Structural)]
pub enum TailSignal {
    EndOfStream,
    ResetRequired,
    Failed,
}

/// One track's decoded PCM chunks, consumed front to back.  The chunks may
/// have arbitrary, uncorrelated lengths; a decoder always produces at least
/// one current chunk when it opens a track.
pub struct DecodeSource<T> {
    chunks: Vec<Vec<T>>,
    index: usize,
    sample_rate: usize,
    tail: TailSignal,
}

impl<T> DecodeSource<T> {
    /// The decoded chunks, each as a sequence of interleaved samples.
    pub closed spec fn spec_chunks(&self) -> Seq<Seq<T>> {
        self.chunks@.map_values(|v: Vec<T>| v@)
    }

    /// Which chunk is current.
    pub closed spec fn spec_index(&self) -> int {
        self.index as int
    }

    /// The input sample rate the decoder declared.
    pub closed spec fn spec_rate(&self) -> int {
        self.sample_rate as int
    }

    /// What follows the last chunk.
    pub closed spec fn spec_tail(&self) -> TailSignal {
        self.tail
    }

    pub open spec fn well_formed(&self) -> bool {
        &&& 1 <= self.spec_chunks().len()
        &&& 0 <= self.spec_index() < self.spec_chunks().len()
        &&& 1 <= self.spec_rate()
    }

    /// The chunk the source currently offers.
    pub open spec fn current_chunk(&self) -> Seq<T> {
        self.spec_chunks()[self.spec_index()]
    }

    /// True once every chunk before the last has been consumed.
    pub open spec fn at_last_chunk(&self) -> bool {
        self.spec_index() + 1 == self.spec_chunks().len()
    }

    /// The stream state the pipeline does not change: the chunks themselves,
    /// the declared rate and the tail signal.
    pub open spec fn same_stream(&self, other: &Self) -> bool {
        &&& self.spec_chunks() == other.spec_chunks()
        &&& self.spec_rate() == other.spec_rate()
        &&& self.spec_tail() == other.spec_tail()
    }

    pub fn new(chunks: Vec<Vec<T>>, sample_rate: usize, tail: TailSignal) -> (s: Self)
        requires
            1 <= chunks@.len(),
            1 <= sample_rate,
        ensures
            s.well_formed(),
            s.spec_chunks() == chunks@.map_values(|v: Vec<T>| v@),
            s.spec_index() == 0,
            s.spec_rate() == sample_rate,
            s.spec_tail() == tail,
    {
        DecodeSource { chunks, index: 0, sample_rate, tail }
    }

    /// The current decoded chunk, unconsumed by this source itself; the
    /// caller tracks how much of it was used.
    pub fn current(&self) -> (r: &Vec<T>)
        requires
            self.well_formed(),
        ensures
            r@ == self.current_chunk(),
    {
        &self.chunks[self.index]
    }

    pub fn sample_rate(&self) -> (r: usize)
        ensures
            r == self.spec_rate(),
    {
        self.sample_rate
    }

    /// Advances to the next chunk.  `Ok(Some(()))` means a new current chunk
    /// is available; once the last chunk is reached the source reports its
    /// tail signal — `Ok(None)` for a normal end of stream, or the error the
    /// decoder raised — and stays on the last chunk.
    pub fn next(&mut self) -> (r: Result<Option<()>, DecoderError>)
        requires
            old(self).well_formed(),
        ensures
            final(self).well_formed(),
            final(self).same_stream(old(self)),
            !old(self).at_last_chunk() ==> {
                &&& r == Ok::<Option<()>, DecoderError>(Some(()))
                &&& final(self).spec_index() == old(self).spec_index() + 1
            },
            old(self).at_last_chunk() ==> {
                &&& final(self).spec_index() == old(self).spec_index()
                &&& r == match old(self).spec_tail() {
                    TailSignal::EndOfStream => Ok::<Option<()>, DecoderError>(None),
                    TailSignal::ResetRequired => Err::<Option<()>, DecoderError>(
                        DecoderError::ResetRequired,
                    ),
                    TailSignal::Failed => Err::<Option<()>, DecoderError>(
                        DecoderError::DecodeFailed,
                    ),
                }
            },
    {
        if self.index < self.chunks.len() - 1 {
            self.index = self.index + 1;
            Ok(Some(()))
        } else {
            match self.tail {
                TailSignal::EndOfStream => Ok(None),
                TailSignal::ResetRequired => Err(DecoderError::ResetRequired),
                TailSignal::Failed => Err(DecoderError::DecodeFailed),
            }
        }
    }
}

/// Total number of samples in `chunks[from..]`.
pub open spec fn total_len<T>(chunks: Seq<Seq<T>>, from: int) -> int
    decreases chunks.len() - from,
{
    if from < 0 || from >= chunks.len() {
        0
    } else {
        chunks[from].len() + total_len(chunks, from + 1)
    }
}

pub proof fn lemma_total_len_nonneg<T>(chunks: Seq<Seq<T>>, from: int)
    ensures
        total_len(chunks, from) >= 0,
    decreases chunks.len() - from,
{
    if 0 <= from < chunks.len() {
        lemma_total_len_nonneg(chunks, from + 1);
    }
}

/// The samples a source still offers when `written` of its current chunk are
/// already consumed: the rest of the current chunk plus every later chunk.
pub open spec fn stream_left<T>(d: &DecodeSource<T>, written: int) -> int {
    d.current_chunk().len() - written + total_len(d.spec_chunks(), d.spec_index() + 1)
}

} // verus!
