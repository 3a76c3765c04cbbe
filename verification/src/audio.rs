//! Sample-domain transforms applied to captured audio before it enters the
//! pipeline: interleaved-stereo reduction and box-filter decimation.
//!
//! Samples are 16-bit PCM values. The capture callback quantizes device
//! samples to this range before handing chunks to the library, and both the
//! voice-activity classifier and the recognition engine consume the same
//! format.

use vstd::prelude::*;
use vstd::arithmetic::div_mod::{
    lemma_div_is_ordered, lemma_div_multiples_vanish, lemma_div_pos_is_pos,
    lemma_hoist_over_denominator,
};

verus! {

/// The fixed rate, in Hz, that the recognition engine expects.
pub const TARGET_SAMPLE_RATE: u32 = 16000;

/// Sum of a sequence of samples, as an unbounded integer.
pub open spec fn sample_sum(s: Seq<i16>) -> int
    decreases s.len(),
{
    if s.len() == 0 {
        0
    } else {
        sample_sum(s.drop_last()) + s.last()
    }
}

/// The arithmetic mean of a non-empty group of samples, rounded toward
/// negative infinity.
pub open spec fn group_mean(s: Seq<i16>) -> int {
    sample_sum(s) / (s.len() as int)
}

/// Every sample lies in the 16-bit range, so the sum of `n` samples lies
/// within `n` times that range.
proof fn lemma_sample_sum_bounds(s: Seq<i16>)
    ensures
        -32768 * s.len() <= sample_sum(s) <= 32767 * s.len(),
    decreases s.len(),
{
    if s.len() > 0 {
        lemma_sample_sum_bounds(s.drop_last());
    }
}

/// A non-empty group's mean lies in the 16-bit sample range.
proof fn lemma_group_mean_in_range(s: Seq<i16>)
    requires
        s.len() > 0,
    ensures
        -32768 <= group_mean(s) <= 32767,
{
    let n = s.len() as int;
    lemma_sample_sum_bounds(s);
    lemma_div_is_ordered(-32768 * n, sample_sum(s), n);
    lemma_div_is_ordered(sample_sum(s), 32767 * n, n);
    lemma_div_multiples_vanish(-32768, n);
    lemma_div_multiples_vanish(32767, n);
}

/// Left channel of an interleaved stereo sequence. A trailing unpaired
/// sample is dropped.
pub open spec fn spec_left_channel(s: Seq<i16>) -> Seq<i16> {
    Seq::new(s.len() / 2, |i: int| s[2 * i])
}

/// Number of groups a sequence of `n` samples forms under decimation
/// ratio `r`: the last group may be shorter than `r`.
pub open spec fn spec_group_count(n: int, r: int) -> int {
    (n + r - 1) / r
}

/// The samples of group `i` under ratio `r`: the `i`-th run of `r`
/// consecutive samples, truncated at the end of the input.
pub open spec fn spec_group(s: Seq<i16>, r: int, i: int) -> Seq<i16> {
    s.subrange(i * r, if (i + 1) * r <= s.len() { (i + 1) * r } else { s.len() as int })
}

/// Box-filter decimation: each output sample is the mean of its group.
pub open spec fn spec_downsample(s: Seq<i16>, r: int) -> Seq<i16>
    recommends
        r >= 1,
{
    Seq::new(spec_group_count(s.len() as int, r) as nat, |i: int| group_mean(spec_group(s, r, i)) as i16)
}

/// Reduce an interleaved stereo chunk to mono by keeping the left channel
/// of each frame pair; channels are not averaged.
pub fn stereo_to_mono(samples: &Vec<i16>) -> (mono: Vec<i16>)
    ensures
        mono@ == spec_left_channel(samples@),
{
    let n = samples.len();
    let mut mono: Vec<i16> = Vec::new();
    let mut i: usize = 0;
    while i < n / 2
        invariant
            i <= n / 2,
            n == samples@.len(),
            mono@.len() == i,
            forall|k: int| 0 <= k < i ==> mono@[k] == samples@[2 * k],
        decreases n / 2 - i,
    {
        mono.push(samples[2 * i]);
        i = i + 1;
    }
    assert(mono@ =~= spec_left_channel(samples@));
    mono
}

/// Mean of the samples at `start..end`, rounded toward negative infinity.
///
/// The sum is taken over values shifted into `0..=65535` so that it stays
/// non-negative; the shift is divided back out exactly.
fn group_mean_exec(samples: &Vec<i16>, start: usize, end: usize) -> (m: i16)
    requires
        start < end <= samples@.len(),
        end - start <= 0xffff_ffff,
    ensures
        m == group_mean(samples@.subrange(start as int, end as int)),
{
    let count = (end - start) as u64;
    let mut sum: u64 = 0;
    let mut j = start;
    while j < end
        invariant
            start <= j <= end <= samples@.len(),
            count == end - start <= 0xffff_ffff,
            sum == sample_sum(samples@.subrange(start as int, j as int)) + 32768 * (j - start),
            sum <= 65535 * (j - start),
        decreases end - j,
    {
        proof {
            assert(samples@.subrange(start as int, j + 1 as int).drop_last()
                =~= samples@.subrange(start as int, j as int));
            lemma_sample_sum_bounds(samples@.subrange(start as int, j as int));
        }
        sum = sum + (samples[j] as i32 + 32768) as u64;
        j = j + 1;
    }
    let group = Ghost(samples@.subrange(start as int, end as int));
    proof {
        lemma_sample_sum_bounds(group@);
        lemma_hoist_over_denominator(sample_sum(group@), 32768, count as nat);
        lemma_group_mean_in_range(group@);
        lemma_div_pos_is_pos(sum as int, count as int);
        assert(sum as int == sample_sum(group@) + 32768 * (count as int));
    }
    let shifted = sum / count;
    (shifted as i64 - 32768) as i16
}

/// Decimate by averaging each run of `ratio` consecutive samples; the
/// trailing partial run is averaged over its actual length. With
/// `ratio == 1` the input is returned unchanged.
pub fn downsample(samples: &Vec<i16>, ratio: u32) -> (out: Vec<i16>)
    requires
        ratio >= 1,
    ensures
        out@ == spec_downsample(samples@, ratio as int),
        out@.len() == spec_group_count(samples@.len() as int, ratio as int),
{
    let n = samples.len();
    let r = ratio as usize;
    let mut out: Vec<i16> = Vec::new();
    let mut i: usize = 0;
    let mut g: usize = 0;
    while i < n
        invariant
            1 <= r <= 0xffff_ffff,
            i <= n == samples@.len(),
            g <= i,
            i == g * r || (i == n && n <= g * r),
            g * r <= i + r - 1,
            out@.len() == g,
            forall|k: int| 0 <= k < g ==> out@[k] == group_mean(spec_group(samples@, r as int, k)) as i16,
        decreases n - i,
    {
        let end = if n - i >= r { i + r } else { n };
        proof {
            assert((g as int + 1) * (r as int) == g as int * r as int + r as int)
                by (nonlinear_arith);
            assert(spec_group(samples@, r as int, g as int)
                =~= samples@.subrange(i as int, end as int));
        }
        let m = group_mean_exec(samples, i, end);
        out.push(m);
        i = end;
        g = g + 1;
    }
    proof {
        // On exit i == n, and n <= g * r <= n + r - 1 by the invariant, so g
        // is exactly the group count (n + r - 1) / r.
        let gi = g as int;
        let ri = r as int;
        let ni = n as int;
        let t = ni + ri - 1 - gi * ri;
        assert(0 <= t < ri);
        vstd::arithmetic::div_mod::lemma_div_multiples_vanish_fancy(gi, t, ri);
        assert(ri * gi + t == ni + ri - 1);
        assert(out@.len() == spec_group_count(samples@.len() as int, ratio as int));
        assert(out@ =~= spec_downsample(samples@, ratio as int));
    }
    out
}

/// What a raw device chunk becomes before it enters the pipeline: left
/// channel if the stream is stereo, then box-filter decimation whenever the
/// native rate is at least twice the target rate.
pub open spec fn spec_prepare_chunk(s: Seq<i16>, channels: u16, native_rate: u32) -> Seq<i16> {
    let mono = if channels == 2 {
        spec_left_channel(s)
    } else {
        s
    };
    let r = native_rate as int / TARGET_SAMPLE_RATE as int;
    if native_rate != TARGET_SAMPLE_RATE && r > 1 {
        spec_downsample(mono, r)
    } else {
        mono
    }
}

/// Prepare one raw device chunk: stereo reduction, then decimation to the
/// target rate's integer ratio.
pub fn prepare_chunk(samples: Vec<i16>, channels: u16, native_rate: u32) -> (out: Vec<i16>)
    ensures
        out@ == spec_prepare_chunk(samples@, channels, native_rate),
{
    let mono = if channels == 2 {
        stereo_to_mono(&samples)
    } else {
        samples
    };
    let ratio = native_rate / TARGET_SAMPLE_RATE;
    if native_rate != TARGET_SAMPLE_RATE && ratio > 1 {
        downsample(&mono, ratio)
    } else {
        mono
    }
}

} // verus!
