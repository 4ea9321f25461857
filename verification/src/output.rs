//! The output sink: ring-buffer sizing, the producer-side write discipline,
//! and the real-time callback's sample handling.
//!
//! The device stream itself is the host's: it opens the stream and runs the
//! OS callback.  What stands here is everything that can be decided and
//! checked — how large the ring buffer is, how a write behaves when the ring
//! is full (bounded retries, then drop, with a rate-limited warning), and
//! what the callback does with the samples it gets (one volume read, exact
//! scaling, silence for any shortfall).

use vstd::prelude::*;
use vstd::arithmetic::div_mod::*;
use vstd::arithmetic::mul::*;
use crate::engine::{SinkFormat, VOLUME_UNITY};
use crate::resampler::MAX_SAMPLE_RATE;

verus! {

/// Why opening or feeding the device stream failed.
#[derive(Clone, Copy, PartialEq, Eq, Structural, Debug)]
pub enum AudioOutputError {
    OpenStreamError,
    PlayStreamError,
    StreamClosedError,
}

/// The most channels a sink accepts.
pub const MAX_CHANNELS: u32 = 64;

/// How many times a producer-side write retries before dropping the rest.
pub const WRITE_RETRY_LIMIT: u32 = 5;

/// The least quiet time between two buffer-overflow warnings, in
/// milliseconds.
pub const WARN_INTERVAL_MS: u64 = 500;

/// The buffering target in ten-thousandths of a second: two seconds as the
/// baseline, three halves of that above 48 kHz, five quarters of that beyond
/// stereo, and a quarter less to begin with on hosts that schedule audio
/// reliably.
pub open spec fn buffer_duration_myriadths(rate: int, channels: int, fast_scheduling: bool) -> int {
    let base: int = if fast_scheduling {
        15000
    } else {
        20000
    };
    let rated: int = if rate > 48000 {
        base * 3 / 2
    } else {
        base
    };
    if channels > 2 {
        rated * 5 / 4
    } else {
        rated
    }
}

/// The ring buffer's capacity in samples for a device format: the rate times
/// the buffering duration times the channel count.
pub open spec fn ring_capacity_spec(rate: int, channels: int, fast_scheduling: bool) -> int {
    rate * buffer_duration_myriadths(rate, channels, fast_scheduling) * channels / 10000
}

/// Compute the ring buffer's capacity for a device format.
pub fn determine_buffer_size(rate: u32, num_channels: u32, fast_scheduling: bool) -> (n: u64)
    requires
        rate <= MAX_SAMPLE_RATE,
        1 <= num_channels <= MAX_CHANNELS,
    ensures
        n == ring_capacity_spec(rate as int, num_channels as int, fast_scheduling),
{
    let base: u64 = if fast_scheduling {
        15000
    } else {
        20000
    };
    let rated: u64 = if rate > 48000 {
        base * 3 / 2
    } else {
        base
    };
    let myriadths: u64 = if num_channels > 2 {
        rated * 5 / 4
    } else {
        rated
    };
    proof {
        lemma_mul_upper_bound(rate as int, MAX_SAMPLE_RATE as int, myriadths as int, 37500);
        lemma_mul_upper_bound(
            rate as int * myriadths as int,
            MAX_SAMPLE_RATE as int * 37500,
            num_channels as int,
            MAX_CHANNELS as int,
        );
        lemma_mul_nonnegative(rate as int, myriadths as int);
        lemma_mul_nonnegative(rate as int * myriadths as int, num_channels as int);
    }
    (rate as u64) * myriadths * (num_channels as u64) / 10000
}

// The bounded single-producer single-consumer ring buffer is the one piece
// of shared state between the engine thread and the real-time callback; it
// comes from the rb crate and stands behind the trusted declarations and
// wrappers below.

#[verifier::external_type_specification]
#[verifier::external_body]
#[verifier::reject_recursive_types(T)]
pub struct ExSpscRb<T>(rb::SpscRb<T>);

#[verifier::external_type_specification]
#[verifier::external_body]
#[verifier::reject_recursive_types(T)]
pub struct ExRbProducer<T>(rb::Producer<T>);

#[verifier::external_type_specification]
#[verifier::external_body]
#[verifier::reject_recursive_types(T)]
pub struct ExRbConsumer<T>(rb::Consumer<T>);

/// Relies on rb::SpscRb::new: a fresh bounded ring buffer with `size` slots.
#[verifier::external_body]
fn rb_new(size: usize) -> rb::SpscRb<i32> {
    rb::SpscRb::new(size)
}

/// Relies on rb::RB::producer: the write half of the ring buffer.
#[verifier::external_body]
fn rb_producer(ring: &rb::SpscRb<i32>) -> rb::Producer<i32> {
    rb::RB::producer(ring)
}

/// Relies on rb::RB::consumer: the read half of the ring buffer.
#[verifier::external_body]
fn rb_consumer(ring: &rb::SpscRb<i32>) -> rb::Consumer<i32> {
    rb::RB::consumer(ring)
}

/// Relies on rb::RbProducer::write: stores a prefix of the given values and
/// says how many it stored — at least one when any were given, since a ring
/// that is not full has a free slot; a full ring stores none and reports the
/// failure instead.
#[verifier::external_body]
fn rb_write(producer: &rb::Producer<i32>, data: &Vec<i32>, from: usize) -> (r: Option<usize>)
    requires
        from <= data@.len(),
    ensures
        r matches Some(cnt) ==> from + cnt <= data@.len() && (from < data@.len() ==> cnt >= 1),
{
    match rb::RbProducer::write(producer, &data[from..]) {
        Ok(cnt) => Some(cnt),
        Err(_) => None,
    }
}

/// Relies on rb::RbConsumer::read: fills a prefix of the buffer with the
/// oldest pending values and says how many — at least one when the buffer
/// has room and values were pending; with none pending it reports the
/// failure and leaves the buffer alone.  Never grows or shrinks the buffer.
#[verifier::external_body]
fn rb_read(consumer: &rb::Consumer<i32>, data: &mut Vec<i32>) -> (r: Option<usize>)
    ensures
        final(data)@.len() == old(data)@.len(),
        r matches Some(cnt) ==> cnt <= old(data)@.len(),
{
    match rb::RbConsumer::read(consumer, data.as_mut_slice()) {
        Ok(cnt) => Some(cnt),
        Err(_) => None,
    }
}

/// One sample scaled by a permille volume, rounded toward zero.
pub open spec fn scaled_sample(sample: int, volume: int) -> int {
    if sample >= 0 {
        (sample * volume) / (VOLUME_UNITY as int)
    } else {
        -((-sample * volume) / (VOLUME_UNITY as int))
    }
}

/// Unity volume leaves every sample exactly as it was.
pub proof fn lemma_unity_volume_is_identity(sample: int)
    ensures
        scaled_sample(sample, VOLUME_UNITY as int) == sample,
{
    if sample >= 0 {
        lemma_div_by_multiple(sample, VOLUME_UNITY as int);
        lemma_mul_is_commutative(sample, VOLUME_UNITY as int);
    } else {
        lemma_div_by_multiple(-sample, VOLUME_UNITY as int);
        lemma_mul_is_commutative(-sample, VOLUME_UNITY as int);
    }
}

/// Scale one sample by an attenuating permille volume.
fn scale_sample(sample: i32, volume: u32) -> (r: i32)
    requires
        volume <= VOLUME_UNITY,
    ensures
        r == scaled_sample(sample as int, volume as int),
{
    if sample >= 0 {
        proof {
            lemma_mul_inequality(volume as int, VOLUME_UNITY as int, sample as int);
            lemma_mul_is_commutative(volume as int, sample as int);
            lemma_mul_is_commutative(VOLUME_UNITY as int, sample as int);
            lemma_div_by_multiple(sample as int, VOLUME_UNITY as int);
            lemma_mul_is_commutative(sample as int, VOLUME_UNITY as int);
            lemma_div_is_ordered(
                sample as int * volume as int,
                sample as int * VOLUME_UNITY as int,
                VOLUME_UNITY as int,
            );
            lemma_mul_nonnegative(sample as int, volume as int);
            lemma_div_pos_is_pos(sample as int * volume as int, VOLUME_UNITY as int);
        }
        let scaled: u64 = (sample as u64) * (volume as u64) / (VOLUME_UNITY as u64);
        scaled as i32
    } else {
        let magnitude: u64 = (-(sample as i64)) as u64;
        proof {
            lemma_mul_inequality(volume as int, VOLUME_UNITY as int, magnitude as int);
            lemma_mul_is_commutative(volume as int, magnitude as int);
            lemma_mul_is_commutative(VOLUME_UNITY as int, magnitude as int);
            lemma_div_by_multiple(magnitude as int, VOLUME_UNITY as int);
            lemma_mul_is_commutative(magnitude as int, VOLUME_UNITY as int);
            lemma_div_is_ordered(
                magnitude as int * volume as int,
                magnitude as int * VOLUME_UNITY as int,
                VOLUME_UNITY as int,
            );
            lemma_mul_nonnegative(magnitude as int, volume as int);
            lemma_div_pos_is_pos(magnitude as int * volume as int, VOLUME_UNITY as int);
        }
        let scaled: u64 = magnitude * (volume as u64) / (VOLUME_UNITY as u64);
        (-(scaled as i64)) as i32
    }
}

/// What the real-time callback does with the buffer the OS handed it, after
/// `got` samples came out of the ring: each of those is scaled by the volume
/// — read once per invocation — and every remaining slot is silence.  The
/// buffer is reused in place: the callback allocates nothing and blocks on
/// nothing.
pub fn apply_volume_and_pad(data: &mut Vec<i32>, got: usize, volume: u32)
    requires
        got <= old(data)@.len(),
        volume <= VOLUME_UNITY,
    ensures
        final(data)@.len() == old(data)@.len(),
        forall|k: int|
            0 <= k < got ==> #[trigger] final(data)@[k] == scaled_sample(
                old(data)@[k] as int,
                volume as int,
            ),
        forall|k: int| got <= k < old(data)@.len() ==> #[trigger] final(data)@[k] == 0,
{
    let mut k: usize = 0;
    while k < got
        invariant
            k <= got,
            got <= data@.len(),
            data@.len() == old(data)@.len(),
            volume <= VOLUME_UNITY,
            forall|j: int|
                0 <= j < k ==> #[trigger] data@[j] == scaled_sample(
                    old(data)@[j] as int,
                    volume as int,
                ),
            forall|j: int| k <= j < data@.len() ==> #[trigger] data@[j] == old(data)@[j],
        decreases got - k,
    {
        let s = data[k];
        let scaled = scale_sample(s, volume);
        data.set(k, scaled);
        k = k + 1;
    }
    let len = data.len();
    let mut m: usize = got;
    while m < len
        invariant
            got <= m <= len,
            len == data@.len(),
            data@.len() == old(data)@.len(),
            forall|j: int|
                0 <= j < got ==> #[trigger] data@[j] == scaled_sample(
                    old(data)@[j] as int,
                    volume as int,
                ),
            forall|j: int| got <= j < m ==> #[trigger] data@[j] == 0,
        decreases len - m,
    {
        data.set(m, 0);
        m = m + 1;
    }
}

/// One whole callback pass: read what the ring has, scale it by the current
/// volume, pad the shortfall with silence.  Returns how many samples came
/// out of the ring; the host uses a full buffer as its sign that the ring is
/// still well stocked.
pub fn callback_fill(consumer: &rb::Consumer<i32>, data: &mut Vec<i32>, volume: u32) -> (got:
    usize)
    requires
        volume <= VOLUME_UNITY,
    ensures
        got <= final(data)@.len(),
        final(data)@.len() == old(data)@.len(),
        forall|k: int| got <= k < old(data)@.len() ==> #[trigger] final(data)@[k] == 0,
{
    let got = match rb_read(consumer, data) {
        Some(cnt) => cnt,
        None => 0,
    };
    apply_volume_and_pad(data, got, volume);
    got
}

/// The producer side of the output sink: the negotiated format, the write
/// half of the ring buffer, the shared volume value, and the warning
/// rate-limit clock.
pub struct OutputSink {
    /// The write half of the ring buffer.
    pub producer: rb::Producer<i32>,
    /// The negotiated device format.
    pub format: SinkFormat,
    /// The gain the callback applies, in permille of unity.
    pub volume: u32,
    /// When the last buffer-overflow warning was issued, in host
    /// milliseconds.
    pub last_warning_ms: u64,
}

/// What one producer-side write pass came to.
#[derive(Clone, Copy, PartialEq, Eq, Structural, Debug)]
pub struct WriteOutcome {
    /// Samples that entered the ring.
    pub written: usize,
    /// How many retries the pass used.
    pub retries: u32,
    /// Samples dropped after the retries were exhausted.
    pub dropped: usize,
    /// Whether an overflow warning is to be logged now.
    pub warned: bool,
}

impl OutputSink {
    /// Open a sink for a negotiated format: size the ring buffer for the
    /// format and the buffering target, and hand back the consumer half for
    /// the device callback.  The sink starts at unity volume.
    pub fn open(format: SinkFormat, fast_scheduling: bool, now_ms: u64) -> (r: (
        OutputSink,
        rb::Consumer<i32>,
    ))
        requires
            1 <= format.rate <= MAX_SAMPLE_RATE,
            1 <= format.channels <= MAX_CHANNELS,
            ring_capacity_spec(format.rate as int, format.channels as int, fast_scheduling)
                <= usize::MAX,
        ensures
            r.0.format == format,
            r.0.volume == VOLUME_UNITY,
            r.0.last_warning_ms == now_ms,
    {
        let ring_len = determine_buffer_size(format.rate, format.channels, fast_scheduling);
        let ring = rb_new(ring_len as usize);
        let producer = rb_producer(&ring);
        let consumer = rb_consumer(&ring);
        (OutputSink { producer, format, volume: VOLUME_UNITY, last_warning_ms: now_ms }, consumer)
    }

    /// Write interleaved samples into the ring buffer with bounded retries.
    ///
    /// The volume is published for the callback first.  Writing then runs
    /// until everything entered the ring or the retry budget is spent;
    /// whatever is left is dropped — playback continuity is preferred over
    /// completeness — and a drop asks for a warning at most once per
    /// rate-limit window.  The pass always returns: it never blocks and
    /// never panics, and samples are dropped only with the retry budget
    /// exhausted.
    pub fn write(&mut self, samples: &Vec<i32>, volume: u32, now_ms: u64) -> (r: WriteOutcome)
        requires
            now_ms >= old(self).last_warning_ms,
        ensures
            final(self).format == old(self).format,
            final(self).volume == volume,
            r.written + r.dropped == samples@.len(),
            r.retries <= WRITE_RETRY_LIMIT,
            r.dropped > 0 ==> r.retries == WRITE_RETRY_LIMIT,
            r.warned == (r.dropped > 0 && now_ms - old(self).last_warning_ms
                > WARN_INTERVAL_MS),
            final(self).last_warning_ms == if r.warned {
                now_ms
            } else {
                old(self).last_warning_ms
            },
    {
        self.volume = volume;
        let total = samples.len();
        let mut written: usize = 0;
        let mut retries: u32 = 0;
        while written < total && retries < WRITE_RETRY_LIMIT
            invariant
                written <= total,
                total == samples@.len(),
                retries <= WRITE_RETRY_LIMIT,
            decreases WRITE_RETRY_LIMIT - retries, total - written,
        {
            match rb_write(&self.producer, samples, written) {
                Some(cnt) => {
                    written = written + cnt;
                    if written < total {
                        retries = retries + 1;
                    }
                },
                None => {
                    retries = retries + 1;
                },
            }
        }
        let dropped = total - written;
        let warned = dropped > 0 && now_ms - self.last_warning_ms > WARN_INTERVAL_MS;
        if warned {
            self.last_warning_ms = now_ms;
        }
        WriteOutcome { written, retries, dropped, warned }
    }
}

} // verus!
