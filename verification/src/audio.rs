//! PCM audio arithmetic: durations, signal energy, channel mixdown and
//! linear-interpolation resampling.
//!
//! Samples are 16-bit fixed-point PCM: the nominal full scale 1.0 is the
//! integer 32767.

use vstd::prelude::*;
use vstd::arithmetic::div_mod::lemma_hoist_over_denominator;
use vstd::arithmetic::div_mod::lemma_div_is_ordered;
use vstd::arithmetic::div_mod::lemma_div_multiples_vanish;

verus! {

/// Fixed-point full scale: the sample value that stands for an amplitude
/// of one.
pub const FULL_SCALE: i32 = 32767;

/// The fixed rate, in samples per second, that recognition input uses.
pub const TARGET_SAMPLE_RATE: u32 = 16000;

/// Integer views of a sequence of fixed-point samples.
pub open spec fn sample_vals(s: Seq<i16>) -> Seq<int> {
    s.map_values(|x: i16| x as int)
}

/// Sum of a sequence of integers.
pub open spec fn sum_int(s: Seq<int>) -> int
    decreases s.len(),
{
    if s.len() == 0 {
        0
    } else {
        sum_int(s.drop_last()) + s.last()
    }
}

/// Signal energy: the sum of the squares of the samples.
pub open spec fn energy_spec(s: Seq<i16>) -> int
    decreases s.len(),
{
    if s.len() == 0 {
        0
    } else {
        energy_spec(s.drop_last()) + s.last() * s.last()
    }
}

/// A recording whose root-mean-square amplitude is below 1/2000 of full
/// scale is treated as silence: rms < FULL_SCALE/2000 restated without
/// square roots as 2000^2 * sum(s^2) < len * FULL_SCALE^2.
pub open spec fn silent_spec(s: Seq<i16>) -> bool {
    4000000 * energy_spec(s) < s.len() * (FULL_SCALE as int) * (FULL_SCALE as int)
}

/// A recording whose root-mean-square amplitude is below 1/1000 of full
/// scale earns a non-fatal low-volume warning.
pub open spec fn quiet_spec(s: Seq<i16>) -> bool {
    1000000 * energy_spec(s) < s.len() * (FULL_SCALE as int) * (FULL_SCALE as int)
}

proof fn lemma_energy_bounds(s: Seq<i16>)
    ensures
        0 <= energy_spec(s) <= s.len() * 0x40000000,
    decreases s.len(),
{
    if s.len() == 0 {
    } else {
        lemma_energy_bounds(s.drop_last());
        assert(s.last() * s.last() <= 0x40000000) by (nonlinear_arith)
            requires
                -0x8000 <= s.last() <= 0x7fff,
        ;
        assert(0 <= s.last() * s.last()) by (nonlinear_arith);
        assert((s.len() - 1) * 0x40000000 + 0x40000000 == s.len() * 0x40000000) by (nonlinear_arith);
    }
}

/// The energy of a recording, exact in every bit.
pub fn audio_energy(samples: &Vec<i16>) -> (r: u128)
    ensures
        r == energy_spec(samples@),
{
    let mut sum: u128 = 0;
    let n = samples.len();
    let mut j: usize = 0;
    while j < n
        invariant
            n == samples@.len(),
            j <= n,
            sum == energy_spec(samples@.subrange(0, j as int)),
        decreases n - j,
    {
        proof {
            lemma_energy_bounds(samples@.subrange(0, j as int));
            assert(samples@.subrange(0, j as int).len() * 0x40000000
                <= samples@.len() * 0x40000000) by (nonlinear_arith)
                requires
                    samples@.subrange(0, j as int).len() <= samples@.len(),
            ;
            assert(samples@.len() * 0x40000000 < u128::MAX - 0x40000000) by (nonlinear_arith)
                requires
                    samples@.len() <= usize::MAX,
            ;
        }
        let s = samples[j];
        proof {
            assert(0 <= s as int * s as int <= 0x40000000) by (nonlinear_arith)
                requires
                    -0x8000 <= s as int <= 0x7fff,
            ;
        }
        let sq: i64 = s as i64 * s as i64;
        proof {
            assert(samples@.subrange(0, j + 1 as int).drop_last()
                =~= samples@.subrange(0, j as int));
            assert(samples@.subrange(0, j + 1 as int).last() == samples@[j as int]);
        }
        sum = sum + sq as u128;
        j = j + 1;
    }
    proof {
        assert(samples@.subrange(0, n as int) =~= samples@);
    }
    sum
}

/// Whether a recording is quiet enough to be rejected as silence before
/// any engine invocation.
pub fn is_silent(samples: &Vec<i16>) -> (r: bool)
    ensures
        r == silent_spec(samples@),
{
    let e = audio_energy(samples);
    let n = samples.len();
    proof {
        lemma_energy_bounds(samples@);
        assert(n * 0x40000000 * 4000000 < u128::MAX) by (nonlinear_arith)
            requires
                n <= usize::MAX,
        ;
        assert(e * 4000000 <= n * 0x40000000 * 4000000) by (nonlinear_arith)
            requires
                0 <= e <= n * 0x40000000,
        ;
    }
    let lhs: u128 = 4000000u128 * e;
    let rhs: u128 = (n as u128) * 32767 * 32767;
    lhs < rhs
}

/// Whether a recording is quiet enough to earn a low-volume warning.
pub fn is_quiet(samples: &Vec<i16>) -> (r: bool)
    ensures
        r == quiet_spec(samples@),
{
    let e = audio_energy(samples);
    let n = samples.len();
    proof {
        lemma_energy_bounds(samples@);
        assert(n * 0x40000000 * 1000000 < u128::MAX) by (nonlinear_arith)
            requires
                n <= usize::MAX,
        ;
        assert(e * 1000000 <= n * 0x40000000 * 1000000) by (nonlinear_arith)
            requires
                0 <= e <= n * 0x40000000,
        ;
    }
    let lhs: u128 = 1000000u128 * e;
    let rhs: u128 = (n as u128) * 32767 * 32767;
    lhs < rhs
}

/// Duration in milliseconds of `count` samples at `rate` samples per second,
/// as a mathematical integer.
pub open spec fn duration_ms_spec(count: int, rate: int) -> int
    recommends
        rate > 0,
{
    count * 1000 / rate
}

/// Duration in milliseconds of a sample count at the given rate, saturating
/// at `u64::MAX`.
pub fn samples_to_ms(sample_count: usize, sample_rate: u32) -> (r: u64)
    requires
        sample_rate > 0,
    ensures
        duration_ms_spec(sample_count as int, sample_rate as int) <= u64::MAX
            ==> r == duration_ms_spec(sample_count as int, sample_rate as int),
        duration_ms_spec(sample_count as int, sample_rate as int) > u64::MAX ==> r == u64::MAX,
{
    let q: u128 = sample_count as u128 * 1000 / sample_rate as u128;
    proof {
        assert(q == duration_ms_spec(sample_count as int, sample_rate as int));
    }
    if q > u64::MAX as u128 {
        u64::MAX
    } else {
        q as u64
    }
}

// --- channel mixdown ---

/// Number of frames a raw interleaved buffer of `len` samples holds at
/// `ch` channels; at one channel or fewer every sample is its own frame.
pub open spec fn mono_len_spec(len: int, ch: int) -> int {
    if ch <= 1 {
        len
    } else {
        (len + ch - 1) / ch
    }
}

/// End of frame `i`: the last frame may be cut short by the buffer's end.
pub open spec fn frame_end_spec(len: int, ch: int, i: int) -> int {
    if i * ch + ch <= len {
        i * ch + ch
    } else {
        len
    }
}

/// Average of frame `i`, rounded toward negative infinity.  A frame cut
/// short by the buffer's end is still divided by the full channel count.
pub open spec fn mixdown_frame_spec(data: Seq<i16>, ch: int, i: int) -> int {
    sum_int(sample_vals(data).subrange(i * ch, frame_end_spec(data.len() as int, ch, i))) / ch
}

/// Multi-channel interleaved PCM mixed down to one channel by per-frame
/// averaging; one channel or fewer passes through unchanged.
pub open spec fn mixdown_spec(data: Seq<i16>, ch: int) -> Seq<int> {
    if ch <= 1 {
        sample_vals(data)
    } else {
        Seq::new(
            mono_len_spec(data.len() as int, ch) as nat,
            |i: int| mixdown_frame_spec(data, ch, i),
        )
    }
}

proof fn lemma_sum_int_bounds(s: Seq<int>, lo: int, hi: int)
    requires
        forall|k: int| 0 <= k < s.len() ==> lo <= #[trigger] s[k] <= hi,
    ensures
        lo * s.len() <= sum_int(s) <= hi * s.len(),
    decreases s.len(),
{
    if s.len() == 0 {
    } else {
        lemma_sum_int_bounds(s.drop_last(), lo, hi);
        assert(lo * (s.len() - 1) + lo == lo * s.len()) by (nonlinear_arith);
        assert(hi * (s.len() - 1) + hi == hi * s.len()) by (nonlinear_arith);
    }
}

/// Mix interleaved PCM down to one channel by averaging each frame.
pub fn mixdown(data: &Vec<i16>, channels: usize) -> (r: Vec<i16>)
    ensures
        sample_vals(r@) == mixdown_spec(data@, channels as int),
{
    let ghost dvals = sample_vals(data@);
    if channels <= 1 {
        let r = data.clone();
        proof {
            assert(sample_vals(r@) =~= mixdown_spec(data@, channels as int));
        }
        return r;
    }
    let n = data.len();
    if n == 0 {
        let r: Vec<i16> = Vec::new();
        proof {
            assert(mono_len_spec(0, channels as int) == 0) by (nonlinear_arith)
                requires
                    channels >= 2,
            ;
            assert(sample_vals(r@) =~= mixdown_spec(data@, channels as int));
        }
        return r;
    }
    let ch = channels;
    let mlen = (n - 1) / ch + 1;
    proof {
        assert(mlen == mono_len_spec(n as int, ch as int)) by (nonlinear_arith)
            requires
                n >= 1,
                ch >= 2,
                mlen == (n - 1) / (ch as int) + 1,
        ;
    }
    let mut out: Vec<i16> = Vec::new();
    let mut i: usize = 0;
    while i < mlen
        invariant
            2 <= ch <= usize::MAX,
            1 <= n <= usize::MAX,
            n == data@.len(),
            dvals == sample_vals(data@),
            mlen == mono_len_spec(n as int, ch as int),
            mlen == (n - 1) / (ch as int) + 1,
            i <= mlen,
            out@.len() == i,
            forall|k: int|
                0 <= k < i ==> out@[k] as int == mixdown_frame_spec(data@, ch as int, k),
        decreases mlen - i,
    {
        proof {
            assert(i * ch <= n - 1) by (nonlinear_arith)
                requires
                    0 <= i < mlen,
                    ch >= 2,
                    n >= 1,
                    mlen == (n - 1) / (ch as int) + 1,
            ;
        }
        let start = i * ch;
        let end = if n - start < ch {
            n
        } else {
            start + ch
        };
        let ghost fend = frame_end_spec(n as int, ch as int, i as int);
        proof {
            assert(end == fend);
        }
        // biased frame sum: bias every slot of the frame, the short tail
        // of the last frame included, so the accumulator never goes
        // negative
        let mut acc: u128 = ((ch - (end - start)) as u128) * 32768;
        let mut j: usize = start;
        while j < end
            invariant
                start <= j <= end,
                end <= n,
                n == data@.len(),
                end - start <= ch,
                ch <= usize::MAX,
                dvals == sample_vals(data@),
                acc == (ch - (end - j)) * 32768
                    + sum_int(dvals.subrange(start as int, j as int)),
            decreases end - j,
        {
            let s = data[j];
            proof {
                let pre = dvals.subrange(start as int, j as int);
                lemma_sum_int_bounds(pre, -32768, 32767);
                assert((-32768) * pre.len() >= (-32768) * (ch as int)) by (nonlinear_arith)
                    requires
                        pre.len() <= ch,
                ;
                assert(32767 * pre.len() <= 32767 * (ch as int)) by (nonlinear_arith)
                    requires
                        pre.len() <= ch,
                ;
                assert((ch - (end - j)) * 32768 <= ch * 32768) by (nonlinear_arith)
                    requires
                        0 <= end - j,
                ;
                assert((ch - (end - j)) * 32768 >= 0) by (nonlinear_arith)
                    requires
                        end - j <= ch,
                ;
                assert(ch * 32768 + 32767 * ch < u128::MAX - 0x10000) by (nonlinear_arith)
                    requires
                        ch <= usize::MAX,
                ;
                assert(dvals.subrange(start as int, j + 1 as int).drop_last()
                    =~= dvals.subrange(start as int, j as int));
                assert(dvals.subrange(start as int, j + 1 as int).last() == s as int);
                assert((ch - (end - (j + 1))) * 32768
                    == (ch - (end - j)) * 32768 + 32768) by (nonlinear_arith);
            }
            acc = acc + ((s as i32 + 32768) as u128);
            j = j + 1;
        }
        let ghost frame = dvals.subrange(start as int, fend);
        proof {
            lemma_sum_int_bounds(frame, -32768, 32767);
            assert(acc == ch * 32768 + sum_int(frame));
            assert((-32768) * frame.len() >= (-32768) * (ch as int)) by (nonlinear_arith)
                requires
                    frame.len() <= ch,
            ;
            assert(32767 * frame.len() <= 32767 * (ch as int)) by (nonlinear_arith)
                requires
                    frame.len() <= ch,
            ;
            // acc <= ch * 32768 + ch * 32767 = ch * 65535
            assert(ch * 32768 + (ch as int) * 32767 == (ch as int) * 65535) by (nonlinear_arith);
            lemma_div_is_ordered(acc as int, (ch as int) * 65535, ch as int);
            lemma_div_multiples_vanish(65535, ch as int);
            lemma_hoist_over_denominator(sum_int(frame), 32768, ch as nat);
        }
        let q: u128 = acc / (ch as u128);
        let avg: i32 = (q as i32) - 32768;
        proof {
            assert(q == sum_int(frame) / (ch as int) + 32768);
            assert(sum_int(frame) / (ch as int) >= -32768) by {
                lemma_div_is_ordered((-32768) * (ch as int), sum_int(frame), ch as int);
                lemma_div_multiples_vanish(-32768, ch as int);
            };
            assert(avg == mixdown_frame_spec(data@, ch as int, i as int));
        }
        out.push(avg as i16);
        i = i + 1;
    }
    proof {
        assert(sample_vals(out@) =~= mixdown_spec(data@, channels as int));
    }
    out
}

// --- rate conversion ---

/// Output length of rate conversion: the ceiling of len * tr / nr.
pub open spec fn resampled_len_spec(len: int, nr: int, tr: int) -> int
    recommends
        nr >= 1,
        tr >= 1,
{
    (len * tr + nr - 1) / nr
}

/// Linear blend of two neighbouring samples at fractional position
/// rem / tr, rounded toward negative infinity.
pub open spec fn lerp_spec(s0: int, s1: int, rem: int, tr: int) -> int
    recommends
        tr >= 1,
        0 <= rem < tr,
{
    (s0 * (tr - rem) + s1 * rem) / tr
}

/// Output sample `i` of rate conversion: source position i * nr / tr,
/// blending the sample at the floor index with the next one, clamped to
/// the last sample at the end of the buffer.
pub open spec fn resample_point_spec(mono: Seq<int>, nr: int, tr: int, i: int) -> int
    recommends
        nr >= 1,
        tr >= 1,
        0 <= i,
        i * nr / tr < mono.len(),
{
    let pos = i * nr;
    let idx = pos / tr;
    let rem = pos % tr;
    let s0 = mono[idx];
    let s1 = if idx + 1 < mono.len() {
        mono[idx + 1]
    } else {
        s0
    };
    lerp_spec(s0, s1, rem, tr)
}

/// One-channel PCM converted from `nr` to `tr` samples per second by
/// linear interpolation; equal rates pass the signal through unchanged.
pub open spec fn resample_spec(mono: Seq<int>, nr: int, tr: int) -> Seq<int>
    recommends
        nr >= 1,
        tr >= 1,
{
    if nr == tr {
        mono
    } else {
        Seq::new(
            resampled_len_spec(mono.len() as int, nr, tr) as nat,
            |i: int| resample_point_spec(mono, nr, tr, i),
        )
    }
}

/// The floor source index of every output position lies inside the
/// source buffer.
pub proof fn lemma_resample_index_in_range(len: int, nr: int, tr: int, i: int)
    requires
        nr >= 1,
        tr >= 1,
        len >= 1,
        0 <= i < resampled_len_spec(len, nr, tr),
    ensures
        0 <= i * nr,
        i * nr / tr < len,
        0 <= i * nr % tr < tr,
{
    let out_len = resampled_len_spec(len, nr, tr);
    vstd::arithmetic::div_mod::lemma_fundamental_div_mod(len * tr + nr - 1, nr);
    vstd::arithmetic::div_mod::lemma_mod_division_less_than_divisor(len * tr + nr - 1, nr);
    assert(out_len * nr <= len * tr + nr - 1) by (nonlinear_arith)
        requires
            nr >= 1,
            len * tr + nr - 1 == nr * out_len + (len * tr + nr - 1) % nr,
            0 <= (len * tr + nr - 1) % nr,
    ;
    assert(0 <= i * nr <= len * tr - 1) by (nonlinear_arith)
        requires
            0 <= i < out_len,
            nr >= 1,
            out_len * nr <= len * tr + nr - 1,
    ;
    lemma_hoist_over_denominator(tr - 1, len - 1, tr as nat);
    assert(tr - 1 + (len - 1) * tr == len * tr - 1) by (nonlinear_arith);
    vstd::arithmetic::div_mod::lemma_basic_div(tr - 1, tr);
    lemma_div_is_ordered(i * nr, len * tr - 1, tr);
    vstd::arithmetic::div_mod::lemma_mod_division_less_than_divisor(i * nr, tr);
}

/// Convert one-channel PCM from `native_rate` to `target_rate` samples
/// per second by linear interpolation.
pub fn resample_rate(mono: &Vec<i16>, native_rate: u32, target_rate: u32) -> (r: Vec<i16>)
    requires
        native_rate >= 1,
        target_rate >= 1,
        resampled_len_spec(mono@.len() as int, native_rate as int, target_rate as int)
            <= usize::MAX,
    ensures
        sample_vals(r@) == resample_spec(
            sample_vals(mono@),
            native_rate as int,
            target_rate as int,
        ),
{
    let ghost mvals = sample_vals(mono@);
    if native_rate == target_rate {
        let r = mono.clone();
        proof {
            assert(sample_vals(r@) =~= resample_spec(
                mvals,
                native_rate as int,
                target_rate as int,
            ));
        }
        return r;
    }
    let n = mono.len();
    let nr = native_rate;
    let tr = target_rate;
    if n == 0 {
        let r: Vec<i16> = Vec::new();
        proof {
            assert(resampled_len_spec(0, nr as int, tr as int) == 0) by (nonlinear_arith)
                requires
                    nr >= 1,
            ;
            assert(sample_vals(r@) =~= resample_spec(mvals, nr as int, tr as int));
        }
        return r;
    }
    proof {
        assert((n as int) * (tr as int) < 0x1_0000_0000_0000_0000_0000_0000) by (nonlinear_arith)
            requires
                n <= usize::MAX,
                tr <= u32::MAX,
        ;
    }
    let num: u128 = (n as u128) * (tr as u128) + (nr as u128) - 1;
    let out_len_wide: u128 = num / (nr as u128);
    proof {
        assert(out_len_wide == resampled_len_spec(n as int, nr as int, tr as int));
    }
    let out_len: usize = out_len_wide as usize;
    let mut out: Vec<i16> = Vec::new();
    let mut i: usize = 0;
    while i < out_len
        invariant
            1 <= nr <= u32::MAX,
            1 <= tr <= u32::MAX,
            nr != tr,
            1 <= n <= usize::MAX,
            n == mono@.len(),
            mvals == sample_vals(mono@),
            out_len == resampled_len_spec(n as int, nr as int, tr as int),
            i <= out_len,
            out@.len() == i,
            forall|k: int|
                0 <= k < i ==> out@[k] as int == resample_point_spec(
                    mvals,
                    nr as int,
                    tr as int,
                    k,
                ),
        decreases out_len - i,
    {
        proof {
            lemma_resample_index_in_range(n as int, nr as int, tr as int, i as int);
            assert((i as int) * (nr as int) < 0x1_0000_0000_0000_0000_0000_0000)
                by (nonlinear_arith)
                requires
                    i <= usize::MAX,
                    nr <= u32::MAX,
            ;
        }
        let pos: u128 = (i as u128) * (nr as u128);
        let idx_wide: u128 = pos / (tr as u128);
        let rem_wide: u128 = pos % (tr as u128);
        proof {
            vstd::arithmetic::div_mod::lemma_mod_division_less_than_divisor(
                pos as int,
                tr as int,
            );
            assert(idx_wide < n);
        }
        let idx: usize = idx_wide as usize;
        let remu: u64 = rem_wide as u64;
        let s0 = mono[idx];
        let s1 = if idx + 1 < n {
            mono[idx + 1]
        } else {
            s0
        };
        let s0b: u64 = (s0 as i64 + 32768) as u64;
        let s1b: u64 = (s1 as i64 + 32768) as u64;
        let tru: u64 = tr as u64;
        proof {
            assert(s0b * (tru - remu) + s1b * remu <= 65535 * (tru as int)) by (nonlinear_arith)
                requires
                    0 <= s0b <= 65535,
                    0 <= s1b <= 65535,
                    0 <= remu <= tru,
            ;
            assert(65535 * (tru as int) < u64::MAX) by (nonlinear_arith)
                requires
                    tru <= u32::MAX,
            ;
        }
        let blend: u64 = s0b * (tru - remu) + s1b * remu;
        let q: u64 = blend / tru;
        proof {
            let s0i = s0 as int;
            let s1i = s1 as int;
            let remi = remu as int;
            let tri = tru as int;
            assert(blend == s0i * (tri - remi) + s1i * remi + 32768 * tri) by (nonlinear_arith)
                requires
                    s0b == s0i + 32768,
                    s1b == s1i + 32768,
                    blend == s0b * (tri - remi) + s1b * remi,
                    0 <= remi <= tri,
            ;
            lemma_hoist_over_denominator(s0i * (tri - remi) + s1i * remi, 32768, tru as nat);
            assert(q == lerp_spec(s0i, s1i, remi, tri) + 32768);
            lemma_div_is_ordered(blend as int, 65535 * tri, tri);
            lemma_div_multiples_vanish(65535, tri);
            assert(q <= 65535);
        }
        let res: i32 = (q as i32) - 32768;
        proof {
            assert(res == resample_point_spec(mvals, nr as int, tr as int, i as int));
        }
        out.push(res as i16);
        i = i + 1;
    }
    proof {
        assert(sample_vals(out@) =~= resample_spec(mvals, nr as int, tr as int));
    }
    out
}

// --- normalization: arbitrary device format to one channel at a fixed rate ---

/// Raw interleaved device PCM normalized to one channel at `tr` samples
/// per second: mixdown, then rate conversion.  Empty input yields empty
/// output.
pub open spec fn resample_to_mono_spec(data: Seq<i16>, nr: int, ch: int, tr: int) -> Seq<int>
    recommends
        nr >= 1,
        tr >= 1,
{
    if data.len() == 0 {
        Seq::<int>::empty()
    } else {
        resample_spec(mixdown_spec(data, ch), nr, tr)
    }
}

/// Normalize raw interleaved device PCM to one channel at `target_rate`
/// samples per second.
pub fn resample_to_mono(
    data: &Vec<i16>,
    native_rate: u32,
    native_channels: usize,
    target_rate: u32,
) -> (r: Vec<i16>)
    requires
        native_rate >= 1,
        target_rate >= 1,
        resampled_len_spec(
            mono_len_spec(data@.len() as int, native_channels as int),
            native_rate as int,
            target_rate as int,
        ) <= usize::MAX,
    ensures
        sample_vals(r@) == resample_to_mono_spec(
            data@,
            native_rate as int,
            native_channels as int,
            target_rate as int,
        ),
{
    if data.len() == 0 {
        let r: Vec<i16> = Vec::new();
        proof {
            assert(sample_vals(r@) =~= Seq::<int>::empty());
        }
        return r;
    }
    let mono = mixdown(data, native_channels);
    proof {
        assert(mono@.len() == mono_len_spec(data@.len() as int, native_channels as int)) by {
            assert(sample_vals(mono@).len() == mono@.len());
            assert(mixdown_spec(data@, native_channels as int).len()
                == mono_len_spec(data@.len() as int, native_channels as int));
        };
    }
    resample_rate(&mono, native_rate, target_rate)
}

// --- laws of normalization ---

/// One-channel audio passed through at its own rate comes back exactly
/// as it went in.
pub proof fn lemma_resample_identity(data: Seq<i16>, rate: int)
    requires
        rate >= 1,
    ensures
        resample_to_mono_spec(data, rate, 1, rate) == sample_vals(data),
{
    if data.len() == 0 {
        assert(resample_to_mono_spec(data, rate, 1, rate) =~= sample_vals(data));
    }
}

/// Mixing down two identical channels yields each frame's common value
/// exactly.
pub proof fn lemma_mixdown_identical_channels(data: Seq<i16>)
    requires
        data.len() % 2 == 0,
        forall|i: int| 0 <= i && 2 * i + 1 < data.len() ==> #[trigger] data[2 * i] == data[2 * i + 1],
    ensures
        mixdown_spec(data, 2) =~= Seq::new((data.len() / 2) as nat, |i: int| data[2 * i] as int),
{
    let len = data.len() as int;
    assert(mono_len_spec(len, 2) == len / 2) by (nonlinear_arith)
        requires
            len % 2 == 0,
            len >= 0,
    ;
    assert forall|i: int| 0 <= i < len / 2 implies mixdown_frame_spec(data, 2, i) == data[2 * i]
        as int by {
        assert(2 * i + 1 < len) by (nonlinear_arith)
            requires
                0 <= i < len / 2,
                len % 2 == 0,
        ;
        assert(frame_end_spec(len, 2, i) == 2 * i + 2);
        let frame = sample_vals(data).subrange(2 * i, 2 * i + 2);
        reveal_with_fuel(sum_int, 3);
        assert(frame.len() == 2);
        assert(frame.drop_last().drop_last().len() == 0);
        assert(sum_int(frame.drop_last().drop_last()) == 0);
        assert(frame.drop_last().last() == frame[0]);
        assert(frame.last() == frame[1]);
        assert(sum_int(frame) == frame[0] + frame[1]);
        assert(frame[0] == data[2 * i] as int);
        assert(frame[1] == data[2 * i + 1] as int);
        assert(data[2 * i + 1] == data[2 * i]);
        lemma_div_multiples_vanish(data[2 * i] as int, 2);
        assert(2 * (data[2 * i] as int) / 2 == data[2 * i] as int);
    };
}

/// Halving the rate halves the length, the odd sample rounding up.
pub proof fn lemma_halfrate_len(mono: Seq<int>, tr: int)
    requires
        tr >= 1,
    ensures
        resample_spec(mono, 2 * tr, tr).len() == (mono.len() + 1) / 2,
{
    let len = mono.len() as int;
    let m = len / 2;
    let out_len = resampled_len_spec(len, 2 * tr, tr);
    vstd::arithmetic::div_mod::lemma_fundamental_div_mod(len, 2);
    vstd::arithmetic::div_mod::lemma_mod_division_less_than_divisor(len, 2);
    if len % 2 == 0 {
        assert(len * tr + 2 * tr - 1 == (tr * 2 - 1) + m * (2 * tr)) by (nonlinear_arith)
            requires
                len == 2 * m,
        ;
        lemma_hoist_over_denominator(tr * 2 - 1, m, (2 * tr) as nat);
        vstd::arithmetic::div_mod::lemma_basic_div(tr * 2 - 1, 2 * tr);
        assert(out_len == m);
        assert((len + 1) / 2 == m) by (nonlinear_arith)
            requires
                len == 2 * m,
                m >= 0,
        ;
    } else {
        assert(len * tr + 2 * tr - 1 == (3 * tr - 1) + m * (2 * tr)) by (nonlinear_arith)
            requires
                len == 2 * m + 1,
        ;
        lemma_hoist_over_denominator(3 * tr - 1, m, (2 * tr) as nat);
        vstd::arithmetic::div_mod::lemma_fundamental_div_mod_converse(
            3 * tr - 1,
            2 * tr,
            1,
            tr - 1,
        );
        assert(out_len == m + 1);
        assert((len + 1) / 2 == m + 1) by (nonlinear_arith)
            requires
                len == 2 * m + 1,
                m >= 0,
        ;
    }
}

/// A constant signal stays that constant through rate conversion.
pub proof fn lemma_resample_constant(mono: Seq<int>, nr: int, tr: int, c: int)
    requires
        nr >= 1,
        tr >= 1,
        forall|i: int| 0 <= i < mono.len() ==> #[trigger] mono[i] == c,
    ensures
        forall|i: int|
            0 <= i < resample_spec(mono, nr, tr).len() ==> #[trigger] resample_spec(
                mono,
                nr,
                tr,
            )[i] == c,
{
    if nr == tr {
    } else if mono.len() == 0 {
        assert(resampled_len_spec(0, nr, tr) == (nr - 1) / nr);
        vstd::arithmetic::div_mod::lemma_basic_div(nr - 1, nr);
    } else {
        let out = resample_spec(mono, nr, tr);
        assert forall|i: int| 0 <= i < out.len() implies #[trigger] out[i] == c by {
            lemma_resample_index_in_range(mono.len() as int, nr, tr, i);
            let rem = i * nr % tr;
            assert(c * (tr - rem) + c * rem == tr * c) by (nonlinear_arith);
            lemma_div_multiples_vanish(c, tr);
            assert(resample_point_spec(mono, nr, tr, i) == c);
        };
    }
}

/// Empty input normalizes to empty output at every format.
pub proof fn lemma_resample_empty(nr: int, ch: int, tr: int)
    ensures
        resample_to_mono_spec(Seq::<i16>::empty(), nr, ch, tr) == Seq::<int>::empty(),
{
}

} // verus!
