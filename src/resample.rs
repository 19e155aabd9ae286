use vstd::prelude::*;

verus! {

/// The one sample rate, in Hz, that every outbound frame is converted to.
pub const TARGET_SAMPLE_RATE: u32 = 16000;

/// The one channel count of every outbound frame.
pub const TARGET_CHANNELS: u16 = 1;

/// Integer division that truncates toward zero, as Rust's `/` on signed integers does.
pub open spec fn trunc_div(x: int, d: int) -> int {
    if x >= 0 {
        x / d
    } else {
        -((-x) / d)
    }
}

/// Sum of the `n` samples of `s` that start at index `start`.
pub open spec fn frame_sum(s: Seq<i16>, start: int, n: nat) -> int
    decreases n,
{
    if n == 0 {
        0
    } else {
        frame_sum(s, start, (n - 1) as nat) + s[start + n - 1] as int
    }
}

/// One sample per complete frame of `ch` interleaved samples: the frame's
/// sum divided by `ch`, truncated. Trailing samples of an incomplete frame
/// are dropped.
pub open spec fn mixdown_of(s: Seq<i16>, ch: nat) -> Seq<i16> {
    Seq::new(s.len() / ch, |j: int| trunc_div(frame_sum(s, j * ch, ch), ch as int) as i16)
}

/// Number of output samples when `n` samples at `rate` Hz are converted to the target rate:
/// `floor(n / (rate / TARGET))`.
pub open spec fn converted_len(n: nat, rate: nat) -> nat {
    (n * TARGET_SAMPLE_RATE as nat / rate) as nat
}

/// Output sample `i`: the source position `i * rate / TARGET` split into its
/// integer part `idx` and fraction `r / TARGET`; linear interpolation between
/// samples `idx` and `idx + 1`, truncated, where both exist, else sample `idx`.
pub open spec fn interpolated(m: Seq<i16>, i: int, rate: int) -> i16 {
    let t = TARGET_SAMPLE_RATE as int;
    let idx = (i * rate) / t;
    let r = (i * rate) % t;
    if idx + 1 < m.len() {
        trunc_div(m[idx] as int * t + (m[idx + 1] as int - m[idx] as int) * r, t) as i16
    } else {
        m[idx]
    }
}

/// A mono buffer at `rate` Hz converted to the target rate.
pub open spec fn rate_converted(m: Seq<i16>, rate: nat) -> Seq<i16> {
    if rate == TARGET_SAMPLE_RATE as nat {
        m
    } else {
        Seq::new(converted_len(m.len(), rate), |i: int| interpolated(m, i, rate as int))
    }
}

/// Interleaved samples at `rate` Hz with `ch` channels, as mono samples at the target rate.
pub open spec fn resampled(s: Seq<i16>, rate: nat, ch: nat) -> Seq<i16> {
    if s.len() == 0 {
        Seq::empty()
    } else {
        rate_converted(mixdown_of(s, ch), rate)
    }
}

proof fn lemma_frame_sum_bounds(s: Seq<i16>, start: int, n: nat)
    requires
        0 <= start,
        start + n <= s.len(),
    ensures
        -32768 * n <= frame_sum(s, start, n) <= 32767 * n,
    decreases n,
{
    if n > 0 {
        lemma_frame_sum_bounds(s, start, (n - 1) as nat);
    }
}

proof fn lemma_trunc_div_bounds(x: int, d: int)
    requires
        d > 0,
        -32768 * d <= x <= 32767 * d,
    ensures
        -32768 <= trunc_div(x, d) <= 32767,
{
    if x >= 0 {
        assert(x / d <= 32767) by (nonlinear_arith)
            requires
                x <= 32767 * d,
                d > 0,
                x >= 0,
        ;
        assert(x / d >= 0) by (nonlinear_arith)
            requires
                d > 0,
                x >= 0,
        ;
    } else {
        assert((-x) / d <= 32768) by (nonlinear_arith)
            requires
                -x <= 32768 * d,
                d > 0,
        ;
        assert((-x) / d >= 0) by (nonlinear_arith)
            requires
                d > 0,
                -x > 0,
        ;
    }
}

/// Truncating division of a sample sum by a positive count.
fn div_toward_zero(x: i64, d: u64) -> (q: i64)
    requires
        d > 0,
        x > i64::MIN,
    ensures
        q as int == trunc_div(x as int, d as int),
{
    if x >= 0 {
        let q = (x as u64) / d;
        assert(q <= x) by (nonlinear_arith)
            requires
                q == (x as u64) / d,
                d > 0,
                x >= 0,
        ;
        q as i64
    } else {
        let m: u64 = (-x) as u64;
        let q = m / d;
        assert(q <= m) by (nonlinear_arith)
            requires
                q == m / d,
                d > 0,
        ;
        -(q as i64)
    }
}

/// Averages each complete frame of `channels` interleaved samples into one
/// sample; a single channel passes through unchanged.
pub fn mixdown(samples: &[i16], channels: u16) -> (r: Vec<i16>)
    requires
        channels > 0,
    ensures
        r@ == mixdown_of(samples@, channels as nat),
{
    let ch: usize = channels as usize;
    let n: usize = samples.len();
    let frames: usize = n / ch;
    let mut out: Vec<i16> = Vec::new();
    let mut j: usize = 0;
    assert(frames * ch <= n) by (nonlinear_arith)
        requires
            frames == n / ch,
            ch > 0,
    ;
    while j < frames
        invariant
            ch == channels as usize,
            ch > 0,
            n == samples@.len(),
            frames == n / ch,
            frames * ch <= n,
            j <= frames,
            out@ == mixdown_of(samples@, ch as nat).take(j as int),
        decreases frames - j,
    {
        assert(j * ch + ch <= frames * ch) by (nonlinear_arith)
            requires
                j < frames,
                ch > 0,
        ;
        let base: usize = j * ch;
        let mut sum: i64 = 0;
        let mut c: usize = 0;
        while c < ch
            invariant
                base == j * ch,
                base + ch <= n,
                n == samples@.len(),
                c <= ch,
                ch <= 65535,
                sum as int == frame_sum(samples@, base as int, c as nat),
            decreases ch - c,
        {
            proof {
                lemma_frame_sum_bounds(samples@, base as int, c as nat);
            }
            sum = sum + samples[base + c] as i64;
            c = c + 1;
        }
        proof {
            lemma_frame_sum_bounds(samples@, base as int, ch as nat);
            lemma_trunc_div_bounds(sum as int, ch as int);
        }
        let avg = div_toward_zero(sum, ch as u64);
        out.push(avg as i16);
        proof {
            assert(out@ =~= mixdown_of(samples@, ch as nat).take(j + 1));
        }
        j = j + 1;
    }
    assert(out@ =~= mixdown_of(samples@, ch as nat));
    out
}


proof fn lemma_interpolation_bounds(a: int, b: int, r: int, t: int)
    requires
        t == TARGET_SAMPLE_RATE as int,
        0 <= r < t,
        -32768 <= a <= 32767,
        -32768 <= b <= 32767,
    ensures
        -32768 * t <= a * t + (b - a) * r <= 32767 * t,
        -32768 <= trunc_div(a * t + (b - a) * r, t) <= 32767,
{
    let x = a * t + (b - a) * r;
    assert(x == a * (t - r) + b * r) by (nonlinear_arith)
        requires
            x == a * t + (b - a) * r,
    ;
    assert(-32768 * (t - r) <= a * (t - r) <= 32767 * (t - r)) by (nonlinear_arith)
        requires
            r < t,
            -32768 <= a <= 32767,
    ;
    assert(-32768 * r <= b * r <= 32767 * r) by (nonlinear_arith)
        requires
            0 <= r,
            -32768 <= b <= 32767,
    ;
    lemma_trunc_div_bounds(x, t);
}

proof fn lemma_source_index_in_bounds(i: int, rate: int, n: int)
    requires
        rate > 0,
        n >= 0,
        0 <= i < (n * TARGET_SAMPLE_RATE as int) / rate,
    ensures
        i * rate < n * TARGET_SAMPLE_RATE as int,
        (i * rate) / (TARGET_SAMPLE_RATE as int) < n,
{
    let t = TARGET_SAMPLE_RATE as int;
    let q = (n * t) / rate;
    assert(q * rate <= n * t) by (nonlinear_arith)
        requires
            q == (n * t) / rate,
            rate > 0,
    ;
    assert(i * rate < n * t) by (nonlinear_arith)
        requires
            i < q,
            q * rate <= n * t,
            rate > 0,
    ;
    assert((i * rate) / t < n) by (nonlinear_arith)
        requires
            i * rate < n * t,
            i * rate >= 0,
            t > 0,
    ;
}

/// Converts a mono buffer from `source_rate` Hz to the target rate by
/// linear interpolation; a buffer already at the target rate is returned unchanged.
pub fn convert_rate(mono: Vec<i16>, source_rate: u32) -> (r: Vec<i16>)
    requires
        source_rate > 0,
    ensures
        r@ == rate_converted(mono@, source_rate as nat),
{
    if source_rate == TARGET_SAMPLE_RATE {
        return mono;
    }
    let n: usize = mono.len();
    let rate: u128 = source_rate as u128;
    let t: u128 = TARGET_SAMPLE_RATE as u128;
    let out_len: u128 = (n as u128 * t) / rate;
    let mut out: Vec<i16> = Vec::new();
    let mut i: u128 = 0;
    while i < out_len
        invariant
            n == mono@.len(),
            rate == source_rate as u128,
            rate > 0,
            t == TARGET_SAMPLE_RATE as u128,
            out_len as nat == converted_len(n as nat, source_rate as nat),
            i <= out_len,
            out@ =~= Seq::new(i as nat, |k: int| interpolated(mono@, k, source_rate as int)),
        decreases out_len - i,
    {
        proof {
            lemma_source_index_in_bounds(i as int, rate as int, n as int);
        }
        let p: u128 = i * rate;
        let idx: usize = (p / t) as usize;
        let rem: u128 = p % t;
        if idx + 1 < n {
            let a: i64 = mono[idx] as i64;
            let b: i64 = mono[idx + 1] as i64;
            proof {
                lemma_interpolation_bounds(a as int, b as int, rem as int, t as int);
            }
            let x: i64 = a * 16000 + (b - a) * (rem as i64);
            let v = div_toward_zero(x, 16000);
            out.push(v as i16);
        } else {
            out.push(mono[idx]);
        }
        i = i + 1;
    }
    out
}

/// Converts interleaved PCM16 samples at `source_rate` Hz with `source_channels`
/// channels to mono at the target rate: each complete frame is averaged to one
/// sample, then the mono buffer is linearly interpolated to the target rate.
pub fn resample_to_16k_mono_i16(samples: &[i16], source_rate: u32, source_channels: u16) -> (r: Vec<i16>)
    requires
        samples@.len() == 0 || (source_rate > 0 && source_channels > 0),
    ensures
        r@ == resampled(samples@, source_rate as nat, source_channels as nat),
{
    if samples.len() == 0 {
        return Vec::new();
    }
    let mono = mixdown(samples, source_channels);
    convert_rate(mono, source_rate)
}


/// Little-endian bytes of PCM16 samples: two bytes per sample, low byte first.
pub open spec fn le_bytes_of(s: Seq<i16>) -> Seq<u8> {
    Seq::new(
        2 * s.len(),
        |k: int|
            if k % 2 == 0 {
                ((s[k / 2] as u16) % 256) as u8
            } else {
                ((s[k / 2] as u16) / 256) as u8
            },
    )
}

/// Serialises PCM16 samples as little-endian bytes, the payload of one outbound frame.
pub fn pcm16_le_bytes(samples: &Vec<i16>) -> (r: Vec<u8>)
    requires
        samples@.len() <= usize::MAX / 2,
    ensures
        r@ == le_bytes_of(samples@),
{
    let mut out: Vec<u8> = Vec::new();
    let mut k: usize = 0;
    while k < samples.len()
        invariant
            k <= samples@.len(),
            samples@.len() <= usize::MAX / 2,
            out@ =~= le_bytes_of(samples@).take(2 * k),
        decreases samples@.len() - k,
    {
        let u: u16 = samples[k] as u16;
        out.push((u % 256) as u8);
        out.push((u / 256) as u8);
        proof {
            assert(out@ =~= le_bytes_of(samples@).take(2 * (k + 1)));
        }
        k = k + 1;
    }
    assert(out@ =~= le_bytes_of(samples@));
    out
}

/// One captured buffer turned into an outbound frame: resampled to target-rate
/// mono, then serialised as little-endian PCM16 bytes.
pub fn encode_frame(samples: &[i16], source_rate: u32, source_channels: u16) -> (r: Vec<u8>)
    requires
        samples@.len() == 0 || (source_rate > 0 && source_channels > 0),
        resampled(samples@, source_rate as nat, source_channels as nat).len() <= usize::MAX / 2,
    ensures
        r@ == le_bytes_of(resampled(samples@, source_rate as nat, source_channels as nat)),
{
    let mono = resample_to_16k_mono_i16(samples, source_rate, source_channels);
    pcm16_le_bytes(&mono)
}

/// At the target rate with one channel, resampling returns its input unchanged.
pub proof fn lemma_same_rate_mono_is_identity(s: Seq<i16>)
    ensures
        resampled(s, TARGET_SAMPLE_RATE as nat, 1) == s,
{
    if s.len() > 0 {
        assert forall|j: int| 0 <= j < s.len() implies mixdown_of(s, 1)[j] == s[j] by {
            assert(frame_sum(s, j, 0) == 0);
            assert(frame_sum(s, j, 1) == s[j] as int);
        }
        assert(mixdown_of(s, 1) =~= s);
    }
}

/// Mixing two interleaved channels down gives `floor(len / 2)` samples, each the
/// truncated average of its pair.
pub proof fn lemma_stereo_mixdown(s: Seq<i16>)
    ensures
        mixdown_of(s, 2).len() == s.len() / 2,
        forall|j: int|
            0 <= j < s.len() / 2 ==> #[trigger] mixdown_of(s, 2)[j] as int == trunc_div(
                s[2 * j] as int + s[2 * j + 1] as int,
                2,
            ),
{
    assert forall|j: int| 0 <= j < s.len() / 2 implies #[trigger] mixdown_of(s, 2)[j] as int
        == trunc_div(s[2 * j] as int + s[2 * j + 1] as int, 2) by {
        let x = s[2 * j] as int + s[2 * j + 1] as int;
        assert(frame_sum(s, 2 * j, 2) == x) by {
            assert(frame_sum(s, 2 * j, 0) == 0);
            assert(frame_sum(s, 2 * j, 1) == s[2 * j] as int);
        }
        lemma_trunc_div_bounds(x, 2);
    }
}

/// Resampling an empty buffer gives an empty buffer, whatever the rate and channel count.
pub proof fn lemma_empty_resamples_to_empty(rate: nat, ch: nat)
    ensures
        resampled(Seq::empty(), rate, ch) == Seq::<i16>::empty(),
{
}

/// Mono input at 48 kHz of length `L` resamples to `floor(L / 3)` samples.
pub proof fn lemma_48k_mono_length(s: Seq<i16>)
    ensures
        resampled(s, 48000, 1).len() == s.len() / 3,
{
    if s.len() > 0 {
        let n = s.len() as int;
        assert((n * 16000) / 48000 == n / 3) by (nonlinear_arith)
            requires
                n >= 0,
        ;
    }
}

} // verus!
