//! Latency histograms, backed by `hdrhistogram`.
//!
//! A histogram is modelled by the multiset of samples recorded into it. The
//! histograms of this library are made by `Histogram::new(4)` (auto-resizing,
//! lowest discernible value 1, four significant figures) and changed only by
//! `record` and `add`. Under that one layout the bucket counts that
//! `hdrhistogram` keeps are a function of the multiset, so merging two
//! histograms adds their multisets.
use vstd::prelude::*;
use vstd::multiset::Multiset;
use hdrhistogram::Histogram;

verus! {

/// A latency histogram in milliseconds. `inner` is public so that reports can
/// read quantiles from it (their argument is a float, so no verified function
/// can read them, and Verus refuses `Histogram` in a signature). Code outside
/// the library should only read it: the model holds for histograms changed
/// only by `record` and `merge`.
#[verifier::external_body]
pub struct LatencyHistogram {
    pub inner: Histogram<u64>,
}

/// The samples recorded into a histogram, as a multiset of bucket values: the
/// histogram keeps a count per bucket, and each recorded value stands as the
/// lowest value of its bucket (`bucket_value`).
pub uninterp spec fn samples(h: LatencyHistogram) -> Multiset<u64>;

/// Width of the bucket holding `v` at four significant figures: values below
/// 2^15 are exact, and the width doubles with each further bit of `v`.
pub open spec fn bucket_width(v: nat) -> nat
    decreases v,
{
    if v < 32768 { 1 } else { 2 * bucket_width(v / 2) }
}

/// The lowest value of the bucket holding `v` at four significant figures:
/// `v` with its lowest (bit length - 15) bits cleared.
pub open spec fn bucket_value(v: u64) -> u64 {
    (v as int - (v as int) % (bucket_width(v as nat) as int)) as u64
}

/// For a histogram made by `Histogram::new(sigfig)` and then changed only by
/// `record` and `add`: `sigfig`. Histograms made otherwise have none of the
/// values `0..=5`.
pub uninterp spec fn layout(h: LatencyHistogram) -> int;

/// Significant figures kept by every latency histogram.
pub const SIGNIFICANT_FIGURES: u8 = 4;

/// Relies on `Histogram::new`: for `sigfig <= 5` it returns an empty,
/// auto-resizing histogram with lowest discernible value 1.
#[verifier::external_body]
fn histogram_new(sigfig: u8) -> (r: LatencyHistogram)
    requires
        sigfig <= 5,
    ensures
        samples(r) == Multiset::<u64>::empty(),
        layout(r) == sigfig as int,
{
    LatencyHistogram { inner: Histogram::new(sigfig).expect("significant figures within range") }
}

/// Relies on `Histogram::record`: an auto-resizing histogram takes every `u64`
/// (its resize only fails where `usize` is narrower than 32 bits) and counts it
/// in its bucket; with four significant figures and lowest discernible value 1
/// the bucket of `v` starts at `bucket_value(v)`.
#[verifier::external_body]
fn histogram_record(h: &mut LatencyHistogram, value: u64)
    requires
        layout(*old(h)) == SIGNIFICANT_FIGURES as int,
    ensures
        samples(*final(h)) == samples(*old(h)).insert(bucket_value(value)),
        layout(*final(h)) == layout(*old(h)),
{
    h.inner.record(value).expect("auto-resizing histogram records every value")
}

/// Relies on `Histogram::len`: the total count, which saturates at `u64::MAX`.
#[verifier::external_body]
fn histogram_len(h: &LatencyHistogram) -> (r: u64)
    ensures
        r as int == if samples(*h).len() <= u64::MAX { samples(*h).len() as int } else { u64::MAX as int },
{
    h.inner.len()
}

/// Relies on `Histogram::add`: an auto-resizing histogram grows to take the
/// other's values, and with the same layout the counts add bucket by bucket.
#[verifier::external_body]
fn histogram_add(h: &mut LatencyHistogram, other: &LatencyHistogram)
    requires
        layout(*old(h)) == SIGNIFICANT_FIGURES as int,
        layout(*other) == layout(*old(h)),
    ensures
        samples(*final(h)) == samples(*old(h)).add(samples(*other)),
        layout(*final(h)) == layout(*old(h)),
{
    h.inner.add(&other.inner).expect("auto-resizing histogram takes every value")
}

impl LatencyHistogram {
    /// The multiset of samples recorded so far.
    pub closed spec fn view(&self) -> Multiset<u64> {
        samples(*self)
    }

    /// The histogram has the library's layout.
    pub closed spec fn wf(&self) -> bool {
        layout(*self) == SIGNIFICANT_FIGURES as int
    }

    pub fn new() -> (r: Self)
        ensures
            r.wf(),
            r@ == Multiset::<u64>::empty(),
    {
        histogram_new(SIGNIFICANT_FIGURES)
    }

    /// Records one sample, at the resolution of its bucket.
    pub fn record(&mut self, value: u64)
        requires
            old(self).wf(),
        ensures
            final(self).wf(),
            final(self)@ == old(self)@.insert(bucket_value(value)),
    {
        histogram_record(self, value);
    }

    /// Number of samples recorded (saturating at `u64::MAX`).
    pub fn len(&self) -> (r: u64)
        ensures
            r as int == if self@.len() <= u64::MAX { self@.len() as int } else { u64::MAX as int },
    {
        histogram_len(self)
    }

    /// Adds the samples of `other` to this histogram.
    pub fn merge(&mut self, other: &LatencyHistogram)
        requires
            old(self).wf(),
            other.wf(),
        ensures
            final(self).wf(),
            final(self)@ == old(self)@.add(other@),
    {
        histogram_add(self, other);
    }
}

/// Merging histograms is associative and commutative: the merged samples, and
/// hence every quantile read from them, do not depend on the order in which
/// per-session histograms are merged.
pub proof fn merge_is_associative_and_commutative(a: LatencyHistogram, b: LatencyHistogram, c: LatencyHistogram)
    ensures
        a@.add(b@).add(c@) == a@.add(b@.add(c@)),
        a@.add(b@) == b@.add(a@),
{
    assert(a@.add(b@).add(c@) =~= a@.add(b@.add(c@)));
    assert(a@.add(b@) =~= b@.add(a@));
}

} // verus!
