//! Fixed-capacity per-channel sample accumulator.
//!
//! A `ChannelBuffer` assembles exactly one resampler input block from a stream
//! of interleaved PCM chunks of arbitrary length.  Storage is one contiguous
//! region per channel (deinterleaved layout) plus a write cursor `position`
//! counted in interleaved samples.  The storage is allocated once and reused
//! block after block via `reset`.

use vstd::arithmetic::div_mod::{
    lemma_fundamental_div_mod, lemma_mod_division_less_than_divisor, lemma_multiply_divide_lt,
};
use vstd::prelude::*;

verus! {

pub struct ChannelBuffer<T> {
    bufs: Vec<Vec<T>>,
    frames: usize,
    position: usize,
    silence: T,
}

impl<T: Copy> ChannelBuffer<T> {
    /// Number of channels.
    pub closed spec fn spec_channels(&self) -> int {
        self.bufs@.len() as int
    }

    /// Capacity in frames per channel.
    pub closed spec fn spec_frames(&self) -> int {
        self.frames as int
    }

    /// Total capacity in interleaved samples.
    pub open spec fn capacity(&self) -> int {
        self.spec_frames() * self.spec_channels()
    }

    /// Interleaved samples written so far.
    pub closed spec fn spec_position(&self) -> int {
        self.position as int
    }

    /// The zero-value sample used to pad a final partial block.
    pub closed spec fn spec_silence(&self) -> T {
        self.silence
    }

    /// Every channel region holds exactly `frames` samples.
    pub closed spec fn rows_sized(&self) -> bool {
        forall|c: int|
            0 <= c < self.bufs@.len() ==> (#[trigger] self.bufs@[c])@.len() == self.frames
    }

    pub open spec fn well_formed(&self) -> bool {
        &&& 1 <= self.spec_channels()
        &&& self.capacity() <= usize::MAX
        &&& 0 <= self.spec_position() <= self.capacity()
        &&& self.rows_sized()
    }

    /// The sample stored at interleaved index `i`: channel `i % channels`,
    /// frame `i / channels`.
    pub closed spec fn sample_at(&self, i: int) -> T {
        self.bufs@[i % self.spec_channels()]@[i / self.spec_channels()]
    }

    /// The interleaved samples written so far, in order.
    pub open spec fn content(&self) -> Seq<T> {
        Seq::new(self.spec_position() as nat, |i: int| self.sample_at(i))
    }

    /// The whole storage read back in interleaved order, filled or not.
    pub open spec fn full_content(&self) -> Seq<T> {
        Seq::new(self.capacity() as nat, |i: int| self.sample_at(i))
    }

    /// The buffer dimensions and padding value; unchanged by every operation
    /// but construction.
    pub open spec fn same_shape(&self, other: &Self) -> bool {
        &&& self.spec_channels() == other.spec_channels()
        &&& self.spec_frames() == other.spec_frames()
        &&& self.spec_silence() == other.spec_silence()
    }

    pub fn new(frames: usize, channels: usize, silence: T) -> (b: Self)
        requires
            1 <= channels,
            frames * channels <= usize::MAX,
        ensures
            b.well_formed(),
            b.spec_frames() == frames,
            b.spec_channels() == channels,
            b.spec_silence() == silence,
            b.spec_position() == 0,
            b.content() == Seq::<T>::empty(),
    {
        let mut bufs: Vec<Vec<T>> = Vec::new();
        for c in 0..channels
            invariant
                bufs@.len() == c,
                forall|k: int| 0 <= k < c ==> (#[trigger] bufs@[k])@.len() == frames,
        {
            let mut row: Vec<T> = Vec::new();
            for f in 0..frames
                invariant
                    row@.len() == f,
            {
                row.push(silence);
            }
            bufs.push(row);
        }
        let b = ChannelBuffer { bufs, frames, position: 0, silence };
        assert(b.content() =~= Seq::<T>::empty());
        b
    }

    pub fn channels(&self) -> (r: usize)
        ensures
            r == self.spec_channels(),
    {
        self.bufs.len()
    }

    pub fn frames(&self) -> (r: usize)
        ensures
            r == self.spec_frames(),
    {
        self.frames
    }

    pub fn position(&self) -> (r: usize)
        ensures
            r == self.spec_position(),
    {
        self.position
    }

    pub fn capacity_samples(&self) -> (r: usize)
        requires
            self.well_formed(),
        ensures
            r == self.capacity(),
    {
        self.frames * self.bufs.len()
    }

    pub fn is_full(&self) -> (r: bool)
        requires
            self.well_formed(),
        ensures
            r == (self.spec_position() == self.capacity()),
    {
        self.position == self.frames * self.bufs.len()
    }

    /// Writes `value` at interleaved index `idx`, touching no other index.
    fn write_at(&mut self, idx: usize, value: T)
        requires
            old(self).well_formed(),
            idx < old(self).capacity(),
        ensures
            final(self).well_formed(),
            final(self).same_shape(old(self)),
            final(self).spec_position() == old(self).spec_position(),
            final(self).sample_at(idx as int) == value,
            forall|i: int|
                0 <= i < old(self).capacity() && i != idx ==> final(self).sample_at(i) == old(
                    self,
                ).sample_at(i),
    {
        let channels = self.bufs.len();
        let ghost ch = channels as int;
        proof {
            assert(ch * self.spec_frames() == self.spec_frames() * ch) by (nonlinear_arith);
            lemma_mod_division_less_than_divisor(idx as int, ch);
            lemma_multiply_divide_lt(idx as int, ch, self.frames as int);
        }
        let c = idx % channels;
        let f = idx / channels;
        self.bufs[c][f] = value;
        proof {
            lemma_fundamental_div_mod(idx as int, ch);
            assert forall|i: int|
                0 <= i < old(self).capacity() && i != idx implies self.sample_at(i) == old(
                self,
            ).sample_at(i) by {
                lemma_mod_division_less_than_divisor(i, ch);
                lemma_fundamental_div_mod(i, ch);
                lemma_multiply_divide_lt(i, ch, self.frames as int);
                if i % ch == c as int && i / ch == f as int {
                    assert(i == ch * (i / ch) + i % ch);
                    assert(idx as int == ch * (idx as int / ch) + (idx as int % ch));
                    assert(false);
                }
            }
        }
    }

    /// Copies as many samples of `src[from..]` as fit into the remaining
    /// capacity, demultiplexing them into the per-channel regions, and
    /// advances `position` by exactly the number consumed.  It consumes the
    /// whole tail of `src` unless the buffer becomes full first, and it can
    /// never leave `position` beyond the capacity.
    pub fn fill_from_slice(&mut self, src: &[T], from: usize) -> (n: usize)
        requires
            old(self).well_formed(),
            from <= src@.len(),
        ensures
            final(self).well_formed(),
            final(self).same_shape(old(self)),
            n <= src@.len() - from,
            n == src@.len() - from || final(self).spec_position() == final(self).capacity(),
            n == if src@.len() - from <= old(self).capacity() - old(self).spec_position() {
                src@.len() - from
            } else {
                old(self).capacity() - old(self).spec_position()
            },
            final(self).spec_position() == old(self).spec_position() + n,
            final(self).content() == old(self).content() + src@.subrange(
                from as int,
                from + n as int,
            ),
    {
        let channels = self.bufs.len();
        let cap = self.frames * channels;
        let avail = cap - self.position;
        let src_rem = src.len() - from;
        let n = if src_rem < avail {
            src_rem
        } else {
            avail
        };
        let start = self.position;
        let mut k: usize = 0;
        while k < n
            invariant
                old(self).well_formed(),
                self.well_formed(),
                self.same_shape(old(self)),
                k <= n,
                start == old(self).spec_position(),
                self.spec_position() == start,
                n <= src@.len() - from,
                from + n <= usize::MAX,
                start + n <= self.capacity(),
                forall|i: int| 0 <= i < start ==> self.sample_at(i) == old(self).sample_at(i),
                forall|i: int|
                    start <= i < start + k ==> self.sample_at(i) == src@[from + (i - start)],
            decreases n - k,
        {
            self.write_at(start + k, src[from + k]);
            k += 1;
        }
        let ghost pre = *self;
        self.position = self.position + n;
        proof {
            assert(self.spec_position() == start + n);
            let rhs = old(self).content() + src@.subrange(from as int, from + n as int);
            assert(rhs.len() == start + n);
            assert forall|i: int| 0 <= i < start + n implies self.content()[i] == rhs[i] by {
                assert(self.sample_at(i) == pre.sample_at(i));
                if i < start {
                    assert(pre.sample_at(i) == old(self).sample_at(i));
                    assert(rhs[i] == old(self).sample_at(i));
                } else {
                    assert(pre.sample_at(i) == src@[from + (i - start)]);
                    assert(rhs[i] == src@[from + (i - start)]);
                }
            }
            assert(self.content() =~= rhs);
        }
        n
    }

    /// Sets `position` back to zero; the storage is retained, so refilling
    /// allocates nothing.
    pub fn reset(&mut self)
        requires
            old(self).well_formed(),
        ensures
            final(self).well_formed(),
            final(self).same_shape(old(self)),
            final(self).spec_position() == 0,
            final(self).content() == Seq::<T>::empty(),
    {
        self.position = 0;
        proof {
            assert(self.content() =~= Seq::<T>::empty());
        }
    }

    /// Writes the silence value into the unfilled tail of every channel
    /// without moving `position`: afterwards the whole storage reads back as
    /// the written prefix followed by silence.
    pub fn silence_remainder(&mut self)
        requires
            old(self).well_formed(),
        ensures
            final(self).well_formed(),
            final(self).same_shape(old(self)),
            final(self).spec_position() == old(self).spec_position(),
            final(self).content() == old(self).content(),
            final(self).full_content() == old(self).content() + Seq::new(
                (old(self).capacity() - old(self).spec_position()) as nat,
                |i: int| old(self).spec_silence(),
            ),
    {
        let channels = self.bufs.len();
        let cap = self.frames * channels;
        let start = self.position;
        let mut k: usize = start;
        while k < cap
            invariant
                old(self).well_formed(),
                self.well_formed(),
                self.same_shape(old(self)),
                start == old(self).spec_position(),
                self.spec_position() == start,
                start <= k <= cap,
                cap == self.capacity(),
                forall|i: int| 0 <= i < start ==> self.sample_at(i) == old(self).sample_at(i),
                forall|i: int| start <= i < k ==> self.sample_at(i) == old(self).spec_silence(),
            decreases cap - k,
        {
            self.write_at(k, self.silence);
            k += 1;
        }
        proof {
            assert(self.content() =~= old(self).content());
            assert(self.full_content() =~= old(self).content() + Seq::new(
                (old(self).capacity() - old(self).spec_position()) as nat,
                |i: int| old(self).spec_silence(),
            ));
        }
    }

    /// What repeated calls of `fill_from_slice` consume in total, when a
    /// buffer with `cap - pos` samples of room is offered inputs of the given
    /// lengths, one after the other: each call consumes its whole input
    /// unless the buffer becomes full first, exactly as `fill_from_slice`
    /// promises of each step.
    pub open spec fn chain_consumed(cap: int, pos: int, lens: Seq<int>) -> int
        decreases lens.len(),
    {
        if lens.len() == 0 {
            0
        } else {
            let n = if lens[0] <= cap - pos {
                lens[0]
            } else {
                cap - pos
            };
            n + Self::chain_consumed(cap, pos + n, lens.drop_first())
        }
    }

    pub open spec fn seq_sum(lens: Seq<int>) -> int
        decreases lens.len(),
    {
        if lens.len() == 0 {
            0
        } else {
            lens[0] + Self::seq_sum(lens.drop_first())
        }
    }

    pub proof fn lemma_seq_sum_nonneg(lens: Seq<int>)
        requires
            forall|i: int| 0 <= i < lens.len() ==> lens[i] >= 0,
        ensures
            Self::seq_sum(lens) >= 0,
        decreases lens.len(),
    {
        if lens.len() > 0 {
            Self::lemma_seq_sum_nonneg(lens.drop_first());
        }
    }

    /// Law: repeated fills with the successive untouched tails of one logical
    /// input stream, summed, consume the whole stream, or exactly what fit
    /// before the buffer first reported full — never more than the room the
    /// buffer had.
    pub proof fn lemma_chained_fills_consume_min(cap: int, pos: int, lens: Seq<int>)
        requires
            0 <= pos <= cap,
            forall|i: int| 0 <= i < lens.len() ==> lens[i] >= 0,
        ensures
            Self::chain_consumed(cap, pos, lens) == if Self::seq_sum(lens) <= cap - pos {
                Self::seq_sum(lens)
            } else {
                cap - pos
            },
        decreases lens.len(),
    {
        if lens.len() > 0 {
            let n = if lens[0] <= cap - pos {
                lens[0]
            } else {
                cap - pos
            };
            Self::lemma_seq_sum_nonneg(lens.drop_first());
            Self::lemma_chained_fills_consume_min(cap, pos + n, lens.drop_first());
        }
    }

    /// The deinterleaved per-channel regions, for the resampler to consume.
    /// Channel `c`, frame `f` holds the sample written at interleaved index
    /// `f * channels + c`.
    pub fn inner(&self) -> (r: &Vec<Vec<T>>)
        requires
            self.well_formed(),
        ensures
            r@.len() == self.spec_channels(),
            forall|c: int| 0 <= c < r@.len() ==> (#[trigger] r@[c])@.len() == self.spec_frames(),
            forall|c: int, f: int|
                0 <= c < r@.len() && 0 <= f < self.spec_frames() ==> r@[c]@[f] == self.sample_at(
                    f * self.spec_channels() + c,
                ),
    {
        proof {
            assert forall|c: int, f: int|
                0 <= c < self.bufs@.len() && 0 <= f < self.spec_frames() implies self.bufs@[c]@[f]
                == self.sample_at(f * self.spec_channels() + c) by {
                let ch = self.spec_channels();
                let i = f * ch + c;
                lemma_fundamental_div_mod(i, ch);
                lemma_mod_division_less_than_divisor(i, ch);
                assert((f * ch + c) % ch == c && (f * ch + c) / ch == f) by (nonlinear_arith)
                    requires
                        0 <= c < ch,
                        0 <= f,
                        i == f * ch + c,
                        i % ch == i - ch * (i / ch),
                        0 <= i % ch < ch,
                ;
            }
        }
        &self.bufs
    }
}

} // verus!
