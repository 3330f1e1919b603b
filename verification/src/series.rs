//! Telemetry samples and the bounded history kept for each node.
//!
//! Fractional readings are fixed-point integers that count millionths of
//! their unit. A reading of zero stands for "not reported".

use circular_buffer::CircularBuffer;
use vstd::prelude::*;

verus! {

/// The number of samples that a node's history retains.
pub const MAX_RETENTION: usize = 128;

/// Device readings of one sample.
#[derive(Clone, Copy, Debug, Default)]
pub struct DeviceMetrics {
    /// Percent, 1 to 100; 101 means externally powered; 0 means unknown.
    pub battery_level: u32,
    /// Millionths of a volt.
    pub voltage: i64,
    /// Millionths of a percent.
    pub channel_utilization: i64,
    /// Millionths of a percent.
    pub air_util_tx: i64,
    pub uptime_seconds: u32,
}

/// Environment readings of one sample, each in millionths of its unit.
#[derive(Clone, Copy, Debug, Default)]
pub struct EnvironmentMetrics {
    pub temperature: i64,
    pub relative_humidity: i64,
    pub barometric_pressure: i64,
    pub gas_resistance: i64,
}

/// Particle counts of one sample.
#[derive(Clone, Copy, Debug, Default)]
pub struct AirQualityMetrics {
    pub pm10_standard: u32,
    pub pm25_standard: u32,
    pub pm100_standard: u32,
}

/// Power-rail readings of one sample, each in millionths of its unit.
#[derive(Clone, Copy, Debug, Default)]
pub struct PowerMetrics {
    pub ch1_voltage: i64,
    pub ch1_current: i64,
}

/// One timestamped snapshot of what was known of a node.
#[derive(Clone, Copy, Debug, Default)]
pub struct TimeSeriesData {
    /// Seconds.
    pub timestamp: u64,
    pub device: DeviceMetrics,
    pub environment: EnvironmentMetrics,
    pub air_quality: AirQualityMetrics,
    pub power: PowerMetrics,
    /// Millionths of a decibel.
    pub rssi: i64,
    /// Millionths of a decibel.
    pub snr: i64,
}

/// Makes the ring buffer of the `circular_buffer` crate known to the
/// verifier as an opaque type: nothing is claimed of what is inside.
#[verifier::external_type_specification]
#[verifier::external_body]
#[verifier::reject_recursive_types(T)]
pub struct ExCircularBuffer<const N: usize, T>(CircularBuffer<N, T>);

/// The samples that a ring holds, oldest first.
pub uninterp spec fn ring_samples(ring: CircularBuffer<MAX_RETENTION, TimeSeriesData>) -> Seq<
    TimeSeriesData,
>;

/// What a full-or-not history of at most `cap` samples holds after one more
/// is appended: the newcomer at the back, and the oldest gone if there was
/// no room.
pub open spec fn appended(before: Seq<TimeSeriesData>, sample: TimeSeriesData, cap: nat) -> Seq<
    TimeSeriesData,
> {
    if cap == 0 {
        before
    } else if before.len() >= cap {
        before.subrange(1, before.len() as int).push(sample)
    } else {
        before.push(sample)
    }
}

/// The most recent `cap` entries of a history, or all of it where it has
/// no more than that.
pub open spec fn latest(history: Seq<TimeSeriesData>, cap: nat) -> Seq<TimeSeriesData> {
    if history.len() <= cap {
        history
    } else {
        history.subrange(history.len() - cap, history.len() as int)
    }
}

/// What a history of at most `cap` samples holds after `samples` are
/// appended one by one.
pub open spec fn appended_all(
    before: Seq<TimeSeriesData>,
    samples: Seq<TimeSeriesData>,
    cap: nat,
) -> Seq<TimeSeriesData>
    decreases samples.len(),
{
    if samples.len() == 0 {
        before
    } else {
        appended(appended_all(before, samples.drop_last(), cap), samples.last(), cap)
    }
}

/// However many samples are appended, the history holds the most recent
/// `cap` of all that it was given, oldest first.
pub proof fn lemma_retains_latest(
    before: Seq<TimeSeriesData>,
    samples: Seq<TimeSeriesData>,
    cap: nat,
)
    requires
        cap > 0,
        before.len() <= cap,
    ensures
        appended_all(before, samples, cap) == latest(before + samples, cap),
    decreases samples.len(),
{
    if samples.len() == 0 {
        assert(before + samples =~= before);
    } else {
        let front = samples.drop_last();
        lemma_retains_latest(before, front, cap);
        assert(before + samples =~= (before + front).push(samples.last()));
        assert(appended(latest(before + front, cap), samples.last(), cap) =~= latest(
            before + samples,
            cap,
        ));
    }
}

/// Appending to a full history evicts precisely the oldest sample.
pub proof fn lemma_full_push_evicts_oldest(
    before: Seq<TimeSeriesData>,
    sample: TimeSeriesData,
    cap: nat,
)
    requires
        cap > 0,
        before.len() == cap,
    ensures
        appended(before, sample, cap) == before.skip(1).push(sample),
{
    assert(before.subrange(1, before.len() as int) =~= before.skip(1));
}

/// An empty ring.
///
/// Trusted: calls `CircularBuffer::new`, which sets the size to zero.
#[verifier::external_body]
fn ring_new() -> (ring: CircularBuffer<MAX_RETENTION, TimeSeriesData>)
    ensures
        ring_samples(ring) == Seq::<TimeSeriesData>::empty(),
{
    CircularBuffer::new()
}

/// The number of samples in a ring.
///
/// Trusted: calls `CircularBuffer::len`, which returns the size, never
/// above the capacity.
#[verifier::external_body]
fn ring_len(ring: &CircularBuffer<MAX_RETENTION, TimeSeriesData>) -> (n: usize)
    ensures
        n == ring_samples(*ring).len(),
        n <= MAX_RETENTION,
{
    ring.len()
}

/// Appends a sample to a ring.
///
/// Trusted: calls `CircularBuffer::push_back`. Below capacity it writes the
/// item behind the back; at capacity it replaces the front item and advances
/// the start, so the old second item becomes the front and the new item the
/// back.
#[verifier::external_body]
fn ring_push(ring: &mut CircularBuffer<MAX_RETENTION, TimeSeriesData>, sample: TimeSeriesData)
    ensures
        ring_samples(*final(ring)) == appended(
            ring_samples(*old(ring)),
            sample,
            MAX_RETENTION as nat,
        ),
{
    ring.push_back(sample);
}

/// The sample at a position counted from the oldest.
///
/// Trusted: calls `CircularBuffer::get`, which yields the item `index`
/// places behind the front, or nothing at or past the length.
#[verifier::external_body]
fn ring_get(ring: &CircularBuffer<MAX_RETENTION, TimeSeriesData>, index: usize) -> (r: Option<
    TimeSeriesData,
>)
    ensures
        r == if index < ring_samples(*ring).len() {
            Some(ring_samples(*ring)[index as int])
        } else {
            None
        },
{
    ring.get(index).copied()
}

/// A copy of a ring.
///
/// Trusted: calls `CircularBuffer::clone`, which collects clones of the
/// items from front to back into a new buffer of the same capacity.
#[verifier::external_body]
fn ring_clone(ring: &CircularBuffer<MAX_RETENTION, TimeSeriesData>) -> (r: CircularBuffer<
    MAX_RETENTION,
    TimeSeriesData,
>)
    ensures
        ring_samples(r) == ring_samples(*ring),
{
    ring.clone()
}

/// A node's telemetry history: the most recent samples, oldest first, never
/// more than `MAX_RETENTION` of them.
#[derive(Debug)]
pub struct TimeSeriesStore {
    ring: CircularBuffer<MAX_RETENTION, TimeSeriesData>,
}

impl View for TimeSeriesStore {
    type V = Seq<TimeSeriesData>;

    closed spec fn view(&self) -> Seq<TimeSeriesData> {
        ring_samples(self.ring)
    }
}

impl TimeSeriesStore {
    /// An empty history.
    pub fn new() -> (store: Self)
        ensures
            store@ == Seq::<TimeSeriesData>::empty(),
    {
        TimeSeriesStore { ring: ring_new() }
    }

    /// The number of retained samples.
    pub fn len(&self) -> (n: usize)
        ensures
            n == self@.len(),
            n <= MAX_RETENTION,
    {
        ring_len(&self.ring)
    }

    /// Appends a sample, evicting the oldest one when the history is full.
    pub fn push(&mut self, sample: TimeSeriesData)
        ensures
            final(self)@ == appended(old(self)@, sample, MAX_RETENTION as nat),
    {
        ring_push(&mut self.ring, sample);
    }

    /// Appends samples one by one, oldest first.
    pub fn extend(&mut self, samples: &Vec<TimeSeriesData>)
        ensures
            final(self)@ == appended_all(old(self)@, samples@, MAX_RETENTION as nat),
    {
        let mut i: usize = 0;
        while i < samples.len()
            invariant
                i <= samples@.len(),
                self@ == appended_all(
                    old(self)@,
                    samples@.subrange(0, i as int),
                    MAX_RETENTION as nat,
                ),
            decreases samples@.len() - i,
        {
            assert(samples@.subrange(0, i + 1).drop_last() =~= samples@.subrange(0, i as int));
            self.push(samples[i]);
            i += 1;
        }
        assert(samples@.subrange(0, i as int) =~= samples@);
    }

    /// The sample at `index`, counted from the oldest.
    pub fn get(&self, index: usize) -> (r: Option<TimeSeriesData>)
        ensures
            r == if index < self@.len() {
                Some(self@[index as int])
            } else {
                None
            },
    {
        ring_get(&self.ring, index)
    }

    /// The retained samples, oldest first.
    pub fn samples(&self) -> (v: Vec<TimeSeriesData>)
        ensures
            v@ == self@,
    {
        let n: usize = self.len();
        let mut v: Vec<TimeSeriesData> = Vec::new();
        let mut i: usize = 0;
        while i < n
            invariant
                n == self@.len(),
                i <= n,
                v@ == self@.subrange(0, i as int),
            decreases n - i,
        {
            match self.get(i) {
                Some(s) => {
                    v.push(s);
                },
                None => {},
            }
            assert(v@ =~= self@.subrange(0, i + 1));
            i += 1;
        }
        assert(v@ =~= self@);
        v
    }
}

impl Clone for TimeSeriesStore {
    /// A copy of the history.
    fn clone(&self) -> (r: Self)
        ensures
            r@ == self@,
    {
        TimeSeriesStore { ring: ring_clone(&self.ring) }
    }
}

} // verus!
