//! Waveforms from packet peaks.
//!
//! A magnitude is carried as the bit pattern of a non-negative IEEE-754
//! single-precision value: such patterns order as the values do, so the
//! largest pattern is the largest magnitude. `UNIT_PEAK` is the pattern of 1.0.
use vstd::prelude::*;

verus! {

/// The bit pattern of the single-precision value 1.0.
pub const UNIT_PEAK: u32 = 0x3F80_0000;

/// The first packet that bar `i` of `bars` takes from `n` packets. With at
/// least as many packets as bars, each bar takes an equal share (rounded
/// down at both ends); with fewer, bar `i` takes packet `i` alone, and the
/// bars past the last packet take none.
pub open spec fn bar_start(n: int, bars: int, i: int) -> int {
    if n >= bars { i * n / bars } else if i < n { i } else { n }
}

/// One past the last packet that bar `i` of `bars` takes from `n` packets.
pub open spec fn bar_end(n: int, bars: int, i: int) -> int {
    if n >= bars { (i + 1) * n / bars } else if i < n { i + 1 } else { n }
}

/// The largest code in `s[lo..hi]`, and 0 when that is empty.
pub open spec fn peak_in(s: Seq<u32>, lo: int, hi: int) -> u32
    decreases hi - lo,
{
    if hi <= lo {
        0
    } else {
        let m = peak_in(s, lo, hi - 1);
        if s[hi - 1] > m { s[hi - 1] } else { m }
    }
}

/// A code limited to 1.0.
pub open spec fn clamp_unit(c: u32) -> u32 {
    if c > UNIT_PEAK { UNIT_PEAK } else { c }
}

/// Bar `i` of the waveform of `bars` bars made from packet peaks `s`.
pub open spec fn bar_value(s: Seq<u32>, bars: int, i: int) -> u32 {
    clamp_unit(peak_in(s, bar_start(s.len() as int, bars, i), bar_end(s.len() as int, bars, i)))
}

proof fn bar_bounds(n: int, bars: int, i: int)
    requires
        0 <= i < bars,
        0 <= n,
    ensures
        0 <= bar_start(n, bars, i) <= bar_end(n, bars, i) <= n,
{
    if n >= bars {
        assert(0 <= i * n / bars) by (nonlinear_arith)
            requires
                0 <= i,
                0 <= n,
                bars > 0,
        ;
        assert(i * n / bars <= (i + 1) * n / bars) by (nonlinear_arith)
            requires
                0 <= i,
                0 <= n,
                bars > 0,
        ;
        assert((i + 1) * n / bars <= n) by (nonlinear_arith)
            requires
                0 <= i < bars,
                0 <= n,
        ;
    }
}

/// The waveform of `bars` bars made from the peak of each decoded packet:
/// each bar is the largest peak among the packets it takes, limited to 1.0.
/// Bars are not scaled to the loudest bar: a quiet file stays quiet. No
/// packets give a waveform of zeros.
pub fn waveform_from_peaks(peaks: &Vec<u32>, bars: usize) -> (r: Vec<u32>)
    ensures
        r@.len() == bars,
        forall|i: int| 0 <= i < bars ==> #[trigger] r@[i] == bar_value(peaks@, bars as int, i),
        forall|i: int| 0 <= i < bars ==> #[trigger] r@[i] <= UNIT_PEAK,
{
    let n = peaks.len();
    let mut out: Vec<u32> = Vec::new();
    let mut i: usize = 0;
    while i < bars
        invariant
            n == peaks@.len(),
            i <= bars,
            out@.len() == i,
            forall|k: int| 0 <= k < i ==> #[trigger] out@[k] == bar_value(peaks@, bars as int, k),
            forall|k: int| 0 <= k < i ==> #[trigger] out@[k] <= UNIT_PEAK,
        decreases bars - i,
    {
        proof {
            bar_bounds(n as int, bars as int, i as int);
        }
        let (start, end): (usize, usize) = if n >= bars {
            let a: u128 = i as u128;
            let b: u128 = n as u128;
            let c: u128 = bars as u128;
            assert((a + 1) * b <= 0x1_0000_0000_0000_0000u128 * 0xffff_ffff_ffff_ffffu128)
                by (nonlinear_arith)
                requires
                    a < 0xffff_ffff_ffff_ffffu128,
                    b <= 0xffff_ffff_ffff_ffffu128,
            ;
            assert(a * b <= (a + 1) * b) by (nonlinear_arith);
            let s = (a * b) / c;
            let e = ((a + 1) * b) / c;
            (s as usize, e as usize)
        } else if i < n {
            (i, i + 1)
        } else {
            (n, n)
        };
        assert(start == bar_start(n as int, bars as int, i as int));
        assert(end == bar_end(n as int, bars as int, i as int));
        let mut peak: u32 = 0;
        let mut j: usize = start;
        while j < end
            invariant
                n == peaks@.len(),
                start <= j <= end <= n,
                peak == peak_in(peaks@, start as int, j as int),
            decreases end - j,
        {
            if peaks[j] > peak {
                peak = peaks[j];
            }
            j = j + 1;
        }
        let v = if peak > UNIT_PEAK { UNIT_PEAK } else { peak };
        out.push(v);
        i = i + 1;
    }
    out
}

} // verus!
