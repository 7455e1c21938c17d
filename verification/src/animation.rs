use vstd::prelude::*;
use crate::image_ops::RgbaPixels;

verus! {

/// One decoded frame: its pixels and how long it stays on screen.
pub struct FrameData {
    pub image: RgbaPixels,
    pub delay_ms: u32,
}

/// The delay given to a frame whose own delay is missing or too short.
pub const DEFAULT_FRAME_DELAY_MS: u32 = 100;

/// Frames asking for less than this are shown for the default delay instead.
pub const MIN_FRAME_DELAY_MS: u32 = 20;

/// An animation with more frames than this is shown as a still image.
pub const MAX_ANIMATION_FRAMES: usize = 200;

/// The delay of a frame whose decoder reports it as the fraction `numer / denom`
/// milliseconds.
pub open spec fn delay_of(numer: u32, denom: u32) -> u32 {
    let raw: u32 = if denom > 0 { (numer / denom) as u32 } else { DEFAULT_FRAME_DELAY_MS };
    if raw < MIN_FRAME_DELAY_MS { DEFAULT_FRAME_DELAY_MS } else { raw }
}

/// Turns a frame delay reported as `numer / denom` milliseconds into the delay
/// that is used: a zero denominator or a delay under the minimum gives the default.
pub fn frame_delay_ms(numer: u32, denom: u32) -> (d: u32)
    ensures
        d == delay_of(numer, denom),
        d >= MIN_FRAME_DELAY_MS,
{
    let raw: u32 = if denom > 0 { numer / denom } else { DEFAULT_FRAME_DELAY_MS };
    if raw < MIN_FRAME_DELAY_MS { DEFAULT_FRAME_DELAY_MS } else { raw }
}

/// Whether a decoded animation of `count` frames is played, rather than shown
/// by its first frame alone.
pub fn keeps_all_frames(count: usize) -> (b: bool)
    ensures
        b == (count <= MAX_ANIMATION_FRAMES),
{
    count <= MAX_ANIMATION_FRAMES
}

/// The total of the delays in `d`.
pub open spec fn delay_sum(d: Seq<u32>) -> nat
    decreases d.len(),
{
    if d.len() == 0 { 0 } else { delay_sum(d.drop_last()) + d.last() as nat }
}

/// The time from the start of the loop at which frame `i` is left.
pub open spec fn frame_end(d: Seq<u32>, i: int) -> nat {
    delay_sum(d.take(i + 1))
}

/// The time from the start of the loop at which frame `i` is entered.
pub open spec fn frame_start(d: Seq<u32>, i: int) -> nat {
    delay_sum(d.take(i))
}

/// The sum over a prefix grows with the prefix and stays within the whole sum.
pub proof fn lemma_prefix_sums(d: Seq<u32>, i: int, j: int)
    requires
        0 <= i <= j <= d.len(),
    ensures
        delay_sum(d.take(i)) <= delay_sum(d.take(j)),
        delay_sum(d.take(j)) <= delay_sum(d),
    decreases d.len(),
{
    if d.len() > 0 {
        if j == d.len() {
            assert(d.take(j) =~= d);
            if i < j {
                assert(d.take(i) =~= d.drop_last().take(i));
                lemma_prefix_sums(d.drop_last(), i, i);
                lemma_prefix_sums(d.drop_last(), i, d.len() - 1);
                assert(d.drop_last().take(d.len() - 1) =~= d.drop_last());
            }
        } else {
            assert(d.take(i) =~= d.drop_last().take(i));
            assert(d.take(j) =~= d.drop_last().take(j));
            lemma_prefix_sums(d.drop_last(), i, j);
            assert(d.drop_last() =~= d.take(d.len() - 1));
        }
    }
}

/// Adding one more element to a prefix adds that element to its sum.
proof fn lemma_prefix_step(d: Seq<u32>, i: int)
    requires
        0 <= i < d.len(),
    ensures
        delay_sum(d.take(i + 1)) == delay_sum(d.take(i)) + d[i],
{
    assert(d.take(i + 1).drop_last() =~= d.take(i));
}

/// Which frame of an animation with delays `delays` is on screen `elapsed_ms`
/// milliseconds after it started to play, looping forever, and how many
/// milliseconds remain until the next frame. With no frames, or delays that sum to
/// zero, the first frame stays and no change is due.
pub fn frame_at(delays: &Vec<u32>, elapsed_ms: u32) -> (r: (usize, Option<u32>))
    requires
        delay_sum(delays@) <= u32::MAX,
    ensures
        delays@.len() == 0 || delay_sum(delays@) == 0 ==> r == (0usize, None::<u32>),
        delays@.len() > 0 && delay_sum(delays@) > 0 ==> {
            let t = elapsed_ms as int % delay_sum(delays@) as int;
            &&& r.0 < delays@.len()
            &&& frame_start(delays@, r.0 as int) <= t < frame_end(delays@, r.0 as int)
            &&& r.1 == Some((frame_end(delays@, r.0 as int) - t) as u32)
        },
{
    let n = delays.len();
    let mut total: u32 = 0;
    let mut k: usize = 0;
    while k < n
        invariant
            n == delays@.len(),
            0 <= k <= n,
            total == delay_sum(delays@.take(k as int)),
            delay_sum(delays@) <= u32::MAX,
        decreases n - k,
    {
        proof {
            lemma_prefix_step(delays@, k as int);
            lemma_prefix_sums(delays@, k as int + 1, n as int);
        }
        total = total + delays[k];
        k = k + 1;
    }
    assert(delays@.take(n as int) =~= delays@);
    if n == 0 || total == 0 {
        return (0, None);
    }
    let t = elapsed_ms % total;
    let mut acc: u32 = 0;
    let mut i: usize = 0;
    assert(delays@.take(0) =~= Seq::<u32>::empty());
    while i < n
        invariant
            n == delays@.len(),
            0 <= i <= n,
            total == delay_sum(delays@),
            total > 0,
            t < total,
            t == elapsed_ms as int % total as int,
            acc == delay_sum(delays@.take(i as int)),
            acc <= t,
        decreases n - i,
    {
        proof {
            lemma_prefix_step(delays@, i as int);
            lemma_prefix_sums(delays@, i as int + 1, n as int);
        }
        acc = acc + delays[i];
        if t < acc {
            return (i, Some(acc - t));
        }
        i = i + 1;
    }
    assert(delays@.take(n as int) =~= delays@);
    (0, None)
}

} // verus!
