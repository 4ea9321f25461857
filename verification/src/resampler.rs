//! Sample-rate conversion: algorithm choice and frame accounting.
//!
//! Decoded frames accumulate here per channel (planar) until a fixed-size
//! processing block is available; a block is then handed out to the host's
//! signal-processing pass, and the planar result is interleaved by this
//! module.  The accounting pins down how many output frames each block
//! yields — always `floor(consumed * to_rate / from_rate)` in total — so the
//! throughput of the whole conversion and the bound on what a flush can lose
//! are proved properties.

use vstd::prelude::*;
use vstd::arithmetic::div_mod::*;
use vstd::arithmetic::mul::*;

verus! {

/// Resampling algorithm: a higher-quality, higher-cost pass, or a
/// lower-cost, shorter-filter pass for mild rate changes.
#[derive(Clone, Copy, PartialEq, Eq, Structural, Debug)]
pub enum ResamplerType {
    /// Frequency-domain resampling: higher quality, more CPU.
    HighQuality,
    /// Interpolating resampling: cheaper, for mild ratios.
    Linear,
}

/// The largest sample rate the resampler accepts.
pub const MAX_SAMPLE_RATE: u32 = 1000000;

/// The largest number of input frames a resampler instance accepts over its
/// life: far beyond any real track, and small enough that frame-times-rate
/// products never overflow.
pub const MAX_TOTAL_FRAMES: u64 = 0x100_0000_0000;

/// The largest processing block size, in frames.
pub const MAX_BLOCK_FRAMES: usize = 0x1000_0000;

/// Which algorithm a rate pair gets: the cheap pass when the relative rate
/// difference is below a quarter, the high-quality pass otherwise.
pub open spec fn resampler_choice(from_rate: int, to_rate: int) -> ResamplerType {
    let diff = if to_rate >= from_rate {
        to_rate - from_rate
    } else {
        from_rate - to_rate
    };
    if 4 * diff < from_rate {
        ResamplerType::Linear
    } else {
        ResamplerType::HighQuality
    }
}

/// Pick the resampling algorithm for a rate pair.  This is a quality/CPU
/// trade-off, not a correctness one: both algorithms obey the same frame
/// accounting.
pub fn select_resampler_type(from_rate: u32, to_rate: u32) -> (t: ResamplerType)
    requires
        from_rate >= 1,
    ensures
        t == resampler_choice(from_rate as int, to_rate as int),
{
    let diff: u64 = if to_rate >= from_rate {
        (to_rate - from_rate) as u64
    } else {
        (from_rate - to_rate) as u64
    };
    if 4 * diff < from_rate as u64 {
        ResamplerType::Linear
    } else {
        ResamplerType::HighQuality
    }
}

/// The reusable interleaving buffer is sized for the worst-case expansion
/// ratio plus a tenth of margin, so steady-state playback never reallocates:
/// `block * to_rate / from_rate` scaled by eleven tenths.
pub fn max_output_frames(block: usize, from_rate: u32, to_rate: u32) -> (n: u64)
    requires
        1 <= from_rate,
        to_rate <= MAX_SAMPLE_RATE,
        block <= MAX_BLOCK_FRAMES,
    ensures
        n == (block * to_rate * 11) / (from_rate * 10),
{
    proof {
        lemma_mul_upper_bound(
            block as int,
            MAX_BLOCK_FRAMES as int,
            to_rate as int,
            MAX_SAMPLE_RATE as int,
        );
    }
    let scaled: u64 = (block as u64) * (to_rate as u64) * 11;
    scaled / ((from_rate as u64) * 10)
}

/// The resampler's planar input queues and frame accounting.
///
/// Samples are interleaved-integer amplitudes; the host converts them to and
/// from its device representation.  `pushed` counts real decoded frames ever
/// queued, `consumed` counts frames taken out in whole blocks (padding
/// included), and `emitted` counts output frames handed out — always exactly
/// `consumed * to_rate / from_rate`, rounded down.
pub struct Resampler {
    /// The algorithm chosen for this rate pair.
    pub rtype: ResamplerType,
    /// The decoded content's rate.
    pub from_rate: u32,
    /// The output device's native rate.
    pub to_rate: u32,
    /// The processing block size in frames.
    pub block: usize,
    /// Per-channel accumulation queues, all of one length.
    pub input: Vec<Vec<i32>>,
    /// Real input frames ever pushed (padding not counted).
    pub pushed: u64,
    /// Frames consumed from the queues, in whole blocks.
    pub consumed: u64,
    /// Output frames emitted so far.
    pub emitted: u64,
}

impl Resampler {
    /// The number of channels.
    pub open spec fn channels(self) -> int {
        self.input@.len() as int
    }

    /// The number of frames now queued per channel.
    pub open spec fn queued(self) -> int {
        self.input@[0]@.len() as int
    }

    /// Well-formedness: at least one channel, equal queue lengths, sane
    /// rates and block size, bounded totals, and the accounting equation
    /// tying emitted output to consumed input.
    pub open spec fn wf(self) -> bool {
        &&& self.channels() >= 1
        &&& forall|c: int|
            0 <= c < self.channels() ==> (#[trigger] self.input@[c]@.len()) as int
                == self.queued()
        &&& 1 <= self.from_rate <= MAX_SAMPLE_RATE
        &&& 1 <= self.to_rate <= MAX_SAMPLE_RATE
        &&& 1 <= self.block <= MAX_BLOCK_FRAMES
        &&& self.consumed + self.queued() <= MAX_TOTAL_FRAMES
        &&& self.pushed <= self.consumed + self.queued()
        &&& self.emitted == (self.consumed * self.to_rate as int) / (self.from_rate as int)
    }

    /// A new resampler for the given layout: empty queues, the algorithm
    /// chosen by the rate pair, nothing consumed or emitted yet.
    pub fn new(num_channels: usize, from_rate: u32, to_rate: u32, block: usize) -> (r: Resampler)
        requires
            1 <= num_channels,
            1 <= from_rate <= MAX_SAMPLE_RATE,
            1 <= to_rate <= MAX_SAMPLE_RATE,
            1 <= block <= MAX_BLOCK_FRAMES,
        ensures
            r.wf(),
            r.rtype == resampler_choice(from_rate as int, to_rate as int),
            r.from_rate == from_rate,
            r.to_rate == to_rate,
            r.block == block,
            r.channels() == num_channels,
            r.queued() == 0,
            r.pushed == 0,
            r.consumed == 0,
            r.emitted == 0,
    {
        let rtype = select_resampler_type(from_rate, to_rate);
        let mut input: Vec<Vec<i32>> = Vec::new();
        let mut c: usize = 0;
        while c < num_channels
            invariant
                c <= num_channels,
                input@.len() == c,
                forall|k: int| 0 <= k < c ==> (#[trigger] input@[k]@.len()) == 0,
            decreases num_channels - c,
        {
            input.push(Vec::new());
            c = c + 1;
        }
        proof {
            lemma_div_of0(from_rate as int);
        }
        Resampler { rtype, from_rate, to_rate, block, input, pushed: 0, consumed: 0, emitted: 0 }
    }

    /// How many frames the queues hold.
    pub fn queued_frames(&self) -> (n: usize)
        requires
            self.wf(),
        ensures
            n as int == self.queued(),
    {
        self.input[0].len()
    }

    /// Is a full processing block available?
    pub fn ready(&self) -> (r: bool)
        requires
            self.wf(),
        ensures
            r == (self.queued() >= self.block),
    {
        self.input[0].len() >= self.block
    }

    /// Queue one planar batch of decoded frames, one vector per channel.
    pub fn push_frames(&mut self, frames: &Vec<Vec<i32>>)
        requires
            old(self).wf(),
            frames@.len() == old(self).channels(),
            forall|c: int|
                0 <= c < frames@.len() ==> (#[trigger] frames@[c]@.len()) == frames@[0]@.len(),
            old(self).consumed + old(self).queued() + frames@[0]@.len() <= MAX_TOTAL_FRAMES,
        ensures
            final(self).wf(),
            final(self).channels() == old(self).channels(),
            forall|c: int|
                0 <= c < old(self).channels() ==> #[trigger] final(self).input@[c]@ == old(
                    self,
                ).input@[c]@ + frames@[c]@,
            final(self).pushed == old(self).pushed + frames@[0]@.len(),
            final(self).consumed == old(self).consumed,
            final(self).emitted == old(self).emitted,
            final(self).rtype == old(self).rtype,
            final(self).from_rate == old(self).from_rate,
            final(self).to_rate == old(self).to_rate,
            final(self).block == old(self).block,
    {
        let n = self.input.len();
        let added = frames[0].len();
        let mut c: usize = 0;
        while c < n
            invariant
                c <= n,
                n == self.input@.len(),
                n == frames@.len(),
                forall|k: int|
                    0 <= k < frames@.len() ==> (#[trigger] frames@[k]@.len()) == frames@[0]@.len(),
                forall|k: int|
                    0 <= k < c ==> #[trigger] self.input@[k]@ == old(self).input@[k]@
                        + frames@[k]@,
                forall|k: int|
                    c <= k < n ==> #[trigger] self.input@[k]@ == old(self).input@[k]@,
                self.rtype == old(self).rtype,
                self.from_rate == old(self).from_rate,
                self.to_rate == old(self).to_rate,
                self.block == old(self).block,
                self.pushed == old(self).pushed,
                self.consumed == old(self).consumed,
                self.emitted == old(self).emitted,
            decreases n - c,
        {
            let m = frames[c].len();
            let mut j: usize = 0;
            while j < m
                invariant
                    c < n,
                    j <= m,
                    n == self.input@.len(),
                    n == frames@.len(),
                    m == frames@[c as int]@.len(),
                    self.input@[c as int]@ == old(self).input@[c as int]@ + frames@[
                        c as int
                    ]@.subrange(0, j as int),
                    forall|k: int|
                        0 <= k < c ==> #[trigger] self.input@[k]@ == old(self).input@[k]@
                            + frames@[k]@,
                    forall|k: int|
                        c < k < n ==> #[trigger] self.input@[k]@ == old(self).input@[k]@,
                    self.rtype == old(self).rtype,
                    self.from_rate == old(self).from_rate,
                    self.to_rate == old(self).to_rate,
                    self.block == old(self).block,
                    self.pushed == old(self).pushed,
                    self.consumed == old(self).consumed,
                    self.emitted == old(self).emitted,
                decreases m - j,
            {
                let x = frames[c][j];
                self.input[c].push(x);
                proof {
                    assert(self.input@[c as int]@ == old(self).input@[c as int]@ + frames@[
                        c as int
                    ]@.subrange(0, j + 1)) by {
                        assert(frames@[c as int]@.subrange(0, j + 1) =~= frames@[
                            c as int
                        ]@.subrange(0, j as int).push(frames@[c as int]@[j as int]));
                    }
                }
                j = j + 1;
            }
            proof {
                assert(frames@[c as int]@.subrange(0, m as int) =~= frames@[c as int]@);
            }
            c = c + 1;
        }
        self.pushed = self.pushed + added as u64;
    }

    /// Take one full block out of the queues.
    ///
    /// Returns the planar block — the first `block` frames of every channel,
    /// which leave the queues — and the number of output frames this block
    /// yields, which keeps the total emitted at exactly
    /// `floor(consumed * to_rate / from_rate)`.
    pub fn take_block(&mut self) -> (r: (Vec<Vec<i32>>, u64))
        requires
            old(self).wf(),
            old(self).queued() >= old(self).block,
        ensures
            final(self).wf(),
            final(self).channels() == old(self).channels(),
            r.0@.len() == old(self).channels(),
            forall|c: int|
                0 <= c < old(self).channels() ==> #[trigger] r.0@[c]@ == old(
                    self,
                ).input@[c]@.subrange(0, old(self).block as int),
            forall|c: int|
                0 <= c < old(self).channels() ==> #[trigger] final(self).input@[c]@ == old(
                    self,
                ).input@[c]@.subrange(old(self).block as int, old(self).queued()),
            final(self).consumed == old(self).consumed + old(self).block,
            final(self).emitted == old(self).emitted + r.1,
            r.1 == ((old(self).consumed + old(self).block) * old(self).to_rate as int) / (old(
                self,
            ).from_rate as int) - old(self).emitted,
            final(self).pushed == old(self).pushed,
            final(self).rtype == old(self).rtype,
            final(self).from_rate == old(self).from_rate,
            final(self).to_rate == old(self).to_rate,
            final(self).block == old(self).block,
    {
        let block = self.block;
        let n = self.input.len();
        let ghost q = self.queued();
        let mut heads: Vec<Vec<i32>> = Vec::new();
        let mut c: usize = 0;
        while c < n
            invariant
                c <= n,
                n == self.input@.len(),
                block == old(self).block,
                q == old(self).queued(),
                block <= q,
                heads@.len() == c,
                forall|k: int|
                    0 <= k < c ==> #[trigger] heads@[k]@ == old(self).input@[k]@.subrange(
                        0,
                        block as int,
                    ),
                forall|k: int|
                    0 <= k < c ==> #[trigger] self.input@[k]@ == old(self).input@[k]@.subrange(
                        block as int,
                        q,
                    ),
                forall|k: int|
                    c <= k < n ==> #[trigger] self.input@[k]@ == old(self).input@[k]@,
                forall|k: int|
                    0 <= k < n ==> (#[trigger] old(self).input@[k]@.len()) as int == q,
                self.rtype == old(self).rtype,
                self.from_rate == old(self).from_rate,
                self.to_rate == old(self).to_rate,
                self.block == old(self).block,
                self.pushed == old(self).pushed,
                self.consumed == old(self).consumed,
                self.emitted == old(self).emitted,
            decreases n - c,
        {
            let qlen = self.input[c].len();
            let mut head: Vec<i32> = Vec::new();
            let mut i: usize = 0;
            while i < block
                invariant
                    c < n,
                    n == self.input@.len(),
                    i <= block,
                    block <= qlen,
                    qlen == self.input@[c as int]@.len(),
                    head@ == self.input@[c as int]@.subrange(0, i as int),
                decreases block - i,
            {
                let x = self.input[c][i];
                head.push(x);
                proof {
                    assert(self.input@[c as int]@.subrange(0, i + 1) =~= self.input@[
                        c as int
                    ]@.subrange(0, i as int).push(self.input@[c as int]@[i as int]));
                }
                i = i + 1;
            }
            let mut tail: Vec<i32> = Vec::new();
            let mut t: usize = block;
            while t < qlen
                invariant
                    c < n,
                    n == self.input@.len(),
                    block <= t <= qlen,
                    qlen == self.input@[c as int]@.len(),
                    tail@ == self.input@[c as int]@.subrange(block as int, t as int),
                decreases qlen - t,
            {
                let x = self.input[c][t];
                tail.push(x);
                proof {
                    assert(self.input@[c as int]@.subrange(block as int, t + 1) =~= self.input@[
                        c as int
                    ]@.subrange(block as int, t as int).push(self.input@[c as int]@[t as int]));
                }
                t = t + 1;
            }
            self.input.set(c, tail);
            heads.push(head);
            c = c + 1;
        }
        let new_consumed: u64 = self.consumed + block as u64;
        proof {
            lemma_mul_upper_bound(
                new_consumed as int,
                MAX_TOTAL_FRAMES as int,
                self.to_rate as int,
                MAX_SAMPLE_RATE as int,
            );
            lemma_mul_inequality(self.consumed as int, new_consumed as int, self.to_rate as int);
            lemma_div_is_ordered(
                self.consumed as int * self.to_rate as int,
                new_consumed as int * self.to_rate as int,
                self.from_rate as int,
            );
            lemma_div_pos_is_pos(self.consumed as int * self.to_rate as int, self.from_rate as int);
            lemma_mul_nonnegative(self.consumed as int, self.to_rate as int);
        }
        let total_next: u64 = new_consumed * (self.to_rate as u64);
        let emit_total: u64 = total_next / (self.from_rate as u64);
        let emit: u64 = emit_total - self.emitted;
        self.emitted = emit_total;
        self.consumed = new_consumed;
        (heads, emit)
    }

    /// Pad a partial tail up to the next block boundary with silence, so a
    /// final processing pass can run.  Adds strictly less than one block of
    /// silence and touches nothing else; with empty queues it does nothing.
    /// Afterwards the queues hold a whole number of blocks, so draining them
    /// loses no decoded frame at all.
    pub fn flush_pad(&mut self) -> (added: usize)
        requires
            old(self).wf(),
            old(self).consumed + old(self).queued() + old(self).block <= MAX_TOTAL_FRAMES,
        ensures
            final(self).wf(),
            final(self).channels() == old(self).channels(),
            added < old(self).block,
            final(self).queued() == old(self).queued() + added,
            old(self).queued() > 0 ==> (final(self).queued() as int) % (old(self).block as int)
                == 0,
            old(self).queued() == 0 ==> added == 0,
            forall|c: int|
                0 <= c < old(self).channels() ==> #[trigger] final(self).input@[c]@ == old(
                    self,
                ).input@[c]@ + Seq::new(added as nat, |k: int| 0i32),
            final(self).pushed == old(self).pushed,
            final(self).consumed == old(self).consumed,
            final(self).emitted == old(self).emitted,
            final(self).rtype == old(self).rtype,
            final(self).from_rate == old(self).from_rate,
            final(self).to_rate == old(self).to_rate,
            final(self).block == old(self).block,
    {
        let q = self.input[0].len();
        if q == 0 {
            proof {
                assert(forall|c: int|
                    0 <= c < self.channels() ==> #[trigger] self.input@[c]@ == self.input@[c]@
                        + Seq::new(0nat, |k: int| 0i32)) by {
                    assert(forall|c: int|
                        0 <= c < self.channels() ==> #[trigger] self.input@[c]@ =~= self.input@[c]@
                            + Seq::new(0nat, |k: int| 0i32));
                }
            }
            return 0;
        }
        let rem = q % self.block;
        let add = if rem == 0 {
            0usize
        } else {
            self.block - rem
        };
        proof {
            lemma_mod_division_less_than_divisor(q as int, self.block as int);
            if rem != 0 {
                lemma_fundamental_div_mod(q as int, self.block as int);
                lemma_mod_multiples_basic((q as int / self.block as int) + 1, self.block as int);
                assert((self.block as int) * ((q as int / self.block as int) + 1) == (
                self.block as int) * (q as int / self.block as int) + self.block as int)
                    by (nonlinear_arith);
            } else {
                lemma_fundamental_div_mod(q as int, self.block as int);
            }
        }
        let n = self.input.len();
        let mut c: usize = 0;
        while c < n
            invariant
                c <= n,
                n == self.input@.len(),
                forall|k: int|
                    0 <= k < c ==> #[trigger] self.input@[k]@ == old(self).input@[k]@ + Seq::new(
                        add as nat,
                        |t: int| 0i32,
                    ),
                forall|k: int|
                    c <= k < n ==> #[trigger] self.input@[k]@ == old(self).input@[k]@,
                self.rtype == old(self).rtype,
                self.from_rate == old(self).from_rate,
                self.to_rate == old(self).to_rate,
                self.block == old(self).block,
                self.pushed == old(self).pushed,
                self.consumed == old(self).consumed,
                self.emitted == old(self).emitted,
            decreases n - c,
        {
            let mut j: usize = 0;
            while j < add
                invariant
                    c < n,
                    j <= add,
                    n == self.input@.len(),
                    self.input@[c as int]@ == old(self).input@[c as int]@ + Seq::new(
                        j as nat,
                        |t: int| 0i32,
                    ),
                    forall|k: int|
                        0 <= k < c ==> #[trigger] self.input@[k]@ == old(self).input@[k]@
                            + Seq::new(add as nat, |t: int| 0i32),
                    forall|k: int|
                        c < k < n ==> #[trigger] self.input@[k]@ == old(self).input@[k]@,
                    self.rtype == old(self).rtype,
                    self.from_rate == old(self).from_rate,
                    self.to_rate == old(self).to_rate,
                    self.block == old(self).block,
                    self.pushed == old(self).pushed,
                    self.consumed == old(self).consumed,
                    self.emitted == old(self).emitted,
                decreases add - j,
            {
                self.input[c].push(0);
                proof {
                    assert(self.input@[c as int]@ =~= old(self).input@[c as int]@ + Seq::new(
                        (j + 1) as nat,
                        |t: int| 0i32,
                    ));
                }
                j = j + 1;
            }
            c = c + 1;
        }
        add
    }
}

/// For nonnegative `a`, `b` and positive `f`, dividing the sum loses at most
/// one against dividing the parts.
pub proof fn lemma_div_sum_bound(a: int, b: int, f: int)
    requires
        a >= 0,
        b >= 0,
        f >= 1,
    ensures
        a / f + b / f <= (a + b) / f <= a / f + b / f + 1,
{
    let qa = a / f;
    let ra = a % f;
    let qb = b / f;
    let rb = b % f;
    lemma_fundamental_div_mod(a, f);
    lemma_fundamental_div_mod(b, f);
    lemma_mod_division_less_than_divisor(a, f);
    lemma_mod_division_less_than_divisor(b, f);
    if ra + rb < f {
        assert(a + b == f * (qa + qb) + (ra + rb)) by (nonlinear_arith)
            requires
                a == f * qa + ra,
                b == f * qb + rb,
        ;
        lemma_div_multiples_vanish_fancy(qa + qb, ra + rb, f);
    } else {
        assert(a + b == f * (qa + qb + 1) + (ra + rb - f)) by (nonlinear_arith)
            requires
                a == f * qa + ra,
                b == f * qb + rb,
        ;
        lemma_div_multiples_vanish_fancy(qa + qb + 1, ra + rb - f, f);
    }
}

/// Throughput law of the conversion.
///
/// Whenever all full blocks have been drained (the queues hold less than one
/// block) and at most one block of silence padding was ever added — which is
/// what a single flush adds — the emitted output frame count stands within
/// one block's worth of output of `floor(pushed * to_rate / from_rate)`:
/// `N` input frames at rate `R1` have yielded `⌊N·R2/R1⌋` frames at rate
/// `R2`, give or take one block.
pub proof fn lemma_resampler_throughput(r: Resampler)
    requires
        r.wf(),
        r.queued() < r.block,
        r.consumed + r.queued() <= r.pushed + r.block,
    ensures
        r.emitted <= (r.pushed as int * r.to_rate as int) / (r.from_rate as int) + (r.block as int
            * r.to_rate as int) / (r.from_rate as int) + 1,
        r.emitted + (r.block as int * r.to_rate as int) / (r.from_rate as int) + 1 >= (
        r.pushed as int * r.to_rate as int) / (r.from_rate as int),
{
    let t = r.to_rate as int;
    let f = r.from_rate as int;
    let p = r.pushed as int;
    let cons = r.consumed as int;
    let blk = r.block as int;
    lemma_mul_nonnegative(p, t);
    lemma_mul_nonnegative(blk, t);
    lemma_mul_nonnegative(cons, t);
    // Upper bound: consumed <= pushed + block.
    assert(cons <= p + blk);
    lemma_mul_inequality(cons, p + blk, t);
    assert((p + blk) * t == p * t + blk * t) by (nonlinear_arith);
    lemma_div_is_ordered(cons * t, p * t + blk * t, f);
    lemma_div_sum_bound(p * t, blk * t, f);
    // Lower bound: pushed <= consumed + block.
    assert(p <= cons + blk);
    lemma_mul_inequality(p, cons + blk, t);
    assert((cons + blk) * t == cons * t + blk * t) by (nonlinear_arith);
    lemma_div_is_ordered(p * t, cons * t + blk * t, f);
    lemma_div_sum_bound(cons * t, blk * t, f);
}

/// An interleaved index lands strictly inside the frames already written:
/// frame `i2` of `i` (channels `ch` wide) at channel `c2`.
pub proof fn lemma_frame_index_bound(i2: int, c2: int, i: int, ch: int)
    requires
        0 <= i2 < i,
        0 <= c2 < ch,
    ensures
        0 <= i2 * ch + c2 < i * ch,
{
    lemma_mul_inequality(i2 + 1, i, ch);
    assert((i2 + 1) * ch == i2 * ch + ch) by (nonlinear_arith);
    lemma_mul_nonnegative(i2, ch);
}

/// Interleave a planar block: frame by frame, channel within frame, exactly
/// the order the device consumes.
pub fn interleave(planar: &Vec<Vec<i32>>) -> (out: Vec<i32>)
    requires
        planar@.len() >= 1,
        forall|c: int|
            0 <= c < planar@.len() ==> (#[trigger] planar@[c]@.len()) == planar@[0]@.len(),
        planar@.len() * planar@[0]@.len() <= usize::MAX,
    ensures
        out@.len() == planar@.len() * planar@[0]@.len(),
        forall|i: int, c: int|
            0 <= i < planar@[0]@.len() && 0 <= c < planar@.len() ==> #[trigger] out@[i * planar@.len()
                + c] == planar@[c]@[i],
{
    let ch = planar.len();
    let frames = planar[0].len();
    let mut out: Vec<i32> = Vec::new();
    let mut i: usize = 0;
    while i < frames
        invariant
            i <= frames,
            ch == planar@.len(),
            frames == planar@[0]@.len(),
            forall|c: int|
                0 <= c < planar@.len() ==> (#[trigger] planar@[c]@.len()) == planar@[0]@.len(),
            ch * frames <= usize::MAX,
            out@.len() == i * ch,
            forall|i2: int, c2: int|
                0 <= i2 < i && 0 <= c2 < ch ==> #[trigger] out@[i2 * ch + c2] == planar@[c2]@[i2],
        decreases frames - i,
    {
        proof {
            lemma_mul_inequality(i + 1, frames as int, ch as int);
            lemma_mul_is_commutative(i + 1, ch as int);
            lemma_mul_is_commutative(frames as int, ch as int);
            assert((i + 1) * ch == i * ch + ch) by (nonlinear_arith);
        }
        let mut c: usize = 0;
        while c < ch
            invariant
                i < frames,
                c <= ch,
                ch == planar@.len(),
                frames == planar@[0]@.len(),
                forall|c2: int|
                    0 <= c2 < planar@.len() ==> (#[trigger] planar@[c2]@.len()) == planar@[0]@.len(),
                i * ch + ch <= usize::MAX,
                out@.len() == i * ch + c,
                forall|i2: int, c2: int|
                    0 <= i2 < i && 0 <= c2 < ch ==> #[trigger] out@[i2 * ch + c2] == planar@[
                        c2
                    ]@[i2],
                forall|c2: int| 0 <= c2 < c ==> #[trigger] out@[i * ch + c2] == planar@[c2]@[i as int],
            decreases ch - c,
        {
            let x = planar[c][i];
            out.push(x);
            proof {
                assert forall|i2: int, c2: int|
                    0 <= i2 < i && 0 <= c2 < ch implies #[trigger] out@[i2 * ch + c2] == planar@[
                    c2
                ]@[i2] by {
                    lemma_frame_index_bound(i2, c2, i as int, ch as int);
                }
            }
            c = c + 1;
        }
        i = i + 1;
    }
    proof {
        lemma_mul_is_commutative(frames as int, ch as int);
    }
    out
}

} // verus!
