//! Spectral framing: the partition of a mono signal at the target rate into
//! hops, and the analysis window that belongs to each hop.
//!
//! Hop `h` covers the samples `h * HOP_SIZE ..< (h + 1) * HOP_SIZE`. Its
//! window ends where the hop ends and reaches `FRAME_SIZE` samples back. What
//! a hop or a window asks for outside the signal is silence, so the last hop
//! is complete however short the signal's tail is.

use vstd::prelude::*;

verus! {

/// The stride between two windows, in samples: 10 ms at the target rate.
pub const HOP_SIZE: usize = 160;

/// The width of a window, in samples: 25 ms at the target rate.
pub const FRAME_SIZE: usize = 400;

/// The number of hops of a signal of `len` samples: `len / HOP_SIZE`, rounded up.
pub open spec fn hop_count(len: int) -> int {
    (len + HOP_SIZE as int - 1) / (HOP_SIZE as int)
}

/// The signal continued with silence on both sides.
pub open spec fn padded<S>(pcm: Seq<S>, silence: S, i: int) -> S {
    if 0 <= i < pcm.len() {
        pcm[i]
    } else {
        silence
    }
}

/// Hop `h` of the signal, padded with silence to `HOP_SIZE` samples.
pub open spec fn hop_of<S>(pcm: Seq<S>, silence: S, h: int) -> Seq<S> {
    Seq::new(HOP_SIZE as nat, |k: int| padded(pcm, silence, h * HOP_SIZE as int + k))
}

/// The first sample position of window `h`; negative for the first windows.
pub open spec fn window_start(h: int) -> int {
    (h + 1) * HOP_SIZE as int - FRAME_SIZE as int
}

/// Window `h` of the signal: hop `h` preceded by the samples before it, to
/// `FRAME_SIZE` samples in all, padded with silence.
pub open spec fn window_of<S>(pcm: Seq<S>, silence: S, h: int) -> Seq<S> {
    Seq::new(FRAME_SIZE as nat, |k: int| padded(pcm, silence, window_start(h) + k))
}

/// The number of hops of a signal of `len` samples.
pub fn hop_total(len: usize) -> (n: usize)
    ensures
        n == hop_count(len as int),
        n * HOP_SIZE >= len,
        n * HOP_SIZE < len + HOP_SIZE,
{
    let whole: usize = len / HOP_SIZE;
    if len % HOP_SIZE == 0 {
        whole
    } else {
        whole + 1
    }
}

/// Hop `h` of the signal, padded with `silence`. A hop past the signal's
/// end is silence throughout.
pub fn hop_at<S: Copy>(pcm: &[S], h: usize, silence: S) -> (hop: Vec<S>)
    ensures
        hop@ == hop_of(pcm@, silence, h as int),
{
    let len: usize = pcm.len();
    let start: u128 = (h as u128) * (HOP_SIZE as u128);
    let mut hop: Vec<S> = Vec::with_capacity(HOP_SIZE);
    let mut k: usize = 0;
    while k < HOP_SIZE
        invariant
            k <= HOP_SIZE,
            start == h * HOP_SIZE,
            len == pcm@.len(),
            hop@ == Seq::new(k as nat, |j: int| padded(pcm@, silence, h * HOP_SIZE as int + j)),
        decreases HOP_SIZE - k,
    {
        let position: u128 = start + k as u128;
        let sample = if position < len as u128 {
            pcm[position as usize]
        } else {
            silence
        };
        hop.push(sample);
        k += 1;
        assert(hop@ =~= Seq::new(
            k as nat,
            |j: int| padded(pcm@, silence, h * HOP_SIZE as int + j),
        ));
    }
    hop
}

/// Window `h` of the signal, padded with `silence`.
pub fn window_at<S: Copy>(pcm: &[S], h: usize, silence: S) -> (window: Vec<S>)
    ensures
        window@ == window_of(pcm@, silence, h as int),
{
    let len: usize = pcm.len();
    let end: u128 = (h as u128) * (HOP_SIZE as u128) + HOP_SIZE as u128;
    let mut window: Vec<S> = Vec::with_capacity(FRAME_SIZE);
    let mut k: usize = 0;
    while k < FRAME_SIZE
        invariant
            k <= FRAME_SIZE,
            end == (h + 1) * HOP_SIZE,
            len == pcm@.len(),
            window@ == Seq::new(k as nat, |j: int| padded(pcm@, silence, window_start(h as int) + j)),
        decreases FRAME_SIZE - k,
    {
        // The window begins `FRAME_SIZE` samples before its hop ends.
        let reach: u128 = end + k as u128;
        let sample = if reach >= FRAME_SIZE as u128 && reach - (FRAME_SIZE as u128) < len as u128 {
            pcm[(reach - FRAME_SIZE as u128) as usize]
        } else {
            silence
        };
        window.push(sample);
        k += 1;
        assert(window@ =~= Seq::new(
            k as nat,
            |j: int| padded(pcm@, silence, window_start(h as int) + j),
        ));
    }
    window
}

/// All hops of the signal, in order.
pub fn split_hops<S: Copy>(pcm: &[S], silence: S) -> (hops: Vec<Vec<S>>)
    ensures
        hops@.len() == hop_count(pcm@.len() as int),
        forall|h: int| 0 <= h < hops@.len() ==> (#[trigger] hops@[h])@ == hop_of(pcm@, silence, h),
{
    let total: usize = hop_total(pcm.len());
    let mut hops: Vec<Vec<S>> = Vec::with_capacity(total);
    let mut h: usize = 0;
    while h < total
        invariant
            h <= total,
            total == hop_count(pcm@.len() as int),
            hops@.len() == h,
            forall|g: int| 0 <= g < h ==> (#[trigger] hops@[g])@ == hop_of(pcm@, silence, g),
        decreases total - h,
    {
        let hop = hop_at(pcm, h, silence);
        hops.push(hop);
        h += 1;
    }
    hops
}

/// All windows of the signal, in hop order: one for each hop.
pub fn split_windows<S: Copy>(pcm: &[S], silence: S) -> (windows: Vec<Vec<S>>)
    ensures
        windows@.len() == hop_count(pcm@.len() as int),
        forall|h: int|
            0 <= h < windows@.len() ==> (#[trigger] windows@[h])@ == window_of(pcm@, silence, h),
{
    let total: usize = hop_total(pcm.len());
    let mut windows: Vec<Vec<S>> = Vec::with_capacity(total);
    let mut h: usize = 0;
    while h < total
        invariant
            h <= total,
            total == hop_count(pcm@.len() as int),
            windows@.len() == h,
            forall|g: int|
                0 <= g < h ==> (#[trigger] windows@[g])@ == window_of(pcm@, silence, g),
        decreases total - h,
    {
        let window = window_at(pcm, h, silence);
        windows.push(window);
        h += 1;
    }
    windows
}

/// The hop count is the least number of hops that covers the signal.
pub proof fn lemma_hop_count_is_ceiling(len: int)
    requires
        len >= 0,
    ensures
        hop_count(len) >= 0,
        (hop_count(len) - 1) * (HOP_SIZE as int) < len,
        len <= hop_count(len) * HOP_SIZE as int,
        len == 0 <==> hop_count(len) == 0,
{
}

/// No sample is dropped: sample `i` of the signal is sample `i % HOP_SIZE` of
/// hop `i / HOP_SIZE`, and that hop exists.
pub proof fn lemma_hops_cover<S>(pcm: Seq<S>, silence: S, i: int)
    requires
        0 <= i < pcm.len(),
    ensures
        0 <= i / (HOP_SIZE as int) < hop_count(pcm.len() as int),
        hop_of(pcm, silence, i / (HOP_SIZE as int))[i % (HOP_SIZE as int)] == pcm[i],
{
}

/// The last hop is padded, not dropped: what it holds past the signal's end
/// is silence, and it holds at least one sample of the signal.
pub proof fn lemma_last_hop_padded<S>(pcm: Seq<S>, silence: S, k: int)
    requires
        pcm.len() > 0,
        0 <= k < HOP_SIZE,
    ensures
        ({
            let last = hop_count(pcm.len() as int) - 1;
            &&& last >= 0
            &&& hop_of(pcm, silence, last)[0] == pcm[last * HOP_SIZE as int]
            &&& last * HOP_SIZE as int + k >= pcm.len() ==> hop_of(pcm, silence, last)[k]
                == silence
        }),
{
}

/// A window ends with its hop.
pub proof fn lemma_window_ends_with_hop<S>(pcm: Seq<S>, silence: S, h: int)
    ensures
        window_of(pcm, silence, h).subrange(FRAME_SIZE as int - HOP_SIZE as int, FRAME_SIZE as int)
            == hop_of(pcm, silence, h),
{
    assert(window_of(pcm, silence, h).subrange(
        FRAME_SIZE as int - HOP_SIZE as int,
        FRAME_SIZE as int,
    ) =~= hop_of(pcm, silence, h));
}

/// Consecutive windows overlap: a window begins with what the window before
/// it holds after its first `HOP_SIZE` samples.
pub proof fn lemma_windows_overlap<S>(pcm: Seq<S>, silence: S, h: int)
    ensures
        window_of(pcm, silence, h + 1).subrange(0, FRAME_SIZE as int - HOP_SIZE as int)
            == window_of(pcm, silence, h).subrange(HOP_SIZE as int, FRAME_SIZE as int),
{
    assert(window_of(pcm, silence, h + 1).subrange(0, FRAME_SIZE as int - HOP_SIZE as int)
        =~= window_of(pcm, silence, h).subrange(HOP_SIZE as int, FRAME_SIZE as int));
}

} // verus!
