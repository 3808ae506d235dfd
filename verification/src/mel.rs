//! Assembly of per-frame mel vectors into one flat, time-major matrix.

use vstd::prelude::*;
use vstd::slice::slice_subrange;
use crate::error::PipelineError;
use crate::frame::{hop_count, hop_total, window_at, window_of, FRAME_SIZE};

verus! {

/// A matrix of mel energies, one row per frame, stored row after row: within
/// a frame the band index varies fastest.
pub struct MelMatrix<E> {
    pub data: Vec<E>,
    pub n_frames: usize,
    pub n_mels: usize,
}

/// The first `n` frame vectors one after the other.
pub open spec fn concat_frames<E>(frames: Seq<Vec<E>>, n: int) -> Seq<E>
    decreases n,
{
    if n <= 0 {
        Seq::empty()
    } else {
        concat_frames(frames, n - 1) + frames[n - 1]@
    }
}

/// Every frame vector holds `n_mels` energies.
pub open spec fn uniform_frames<E>(frames: Seq<Vec<E>>, n_mels: int) -> bool {
    forall|f: int| 0 <= f < frames.len() ==> (#[trigger] frames[f])@.len() == n_mels
}

impl<E> MelMatrix<E> {
    /// The flat sequence holds exactly `n_frames` rows of `n_mels` energies.
    pub open spec fn wf(&self) -> bool {
        self.data@.len() == self.n_frames * self.n_mels
    }

    /// The energy of band `band` in frame `frame`.
    pub open spec fn spec_at(&self, frame: int, band: int) -> E {
        self.data@[frame * self.n_mels as int + band]
    }

    /// The energies of frame `frame`, by band.
    pub open spec fn spec_frame(&self, frame: int) -> Seq<E> {
        self.data@.subrange(
            frame * self.n_mels as int,
            frame * self.n_mels as int + self.n_mels as int,
        )
    }

    /// Gives a flat sequence its dimensions: the frame count is the length
    /// divided by the band count, and the division must leave no remainder.
    pub fn from_flat(data: Vec<E>, n_mels: usize) -> (r: Result<Self, PipelineError>)
        requires
            n_mels > 0,
        ensures
            match r {
                Ok(m) => {
                    &&& data@.len() % (n_mels as nat) == 0
                    &&& m.data@ == data@
                    &&& m.n_mels == n_mels
                    &&& m.n_frames == data@.len() / (n_mels as nat)
                    &&& m.wf()
                },
                Err(e) => e == PipelineError::InconsistentMelLength && data@.len() % (
                n_mels as nat) != 0,
            },
    {
        let len: usize = data.len();
        if len % n_mels != 0 {
            return Err(PipelineError::InconsistentMelLength);
        }
        let n_frames: usize = len / n_mels;
        assert(len == n_frames * n_mels) by (nonlinear_arith)
            requires
                n_mels > 0,
                len % n_mels == 0,
                n_frames == len / n_mels,
        ;
        Ok(MelMatrix { data, n_frames, n_mels })
    }

    /// The energy of band `band` in frame `frame`.
    pub fn at(&self, frame: usize, band: usize) -> (e: &E)
        requires
            self.wf(),
            frame < self.n_frames,
            band < self.n_mels,
        ensures
            *e == self.spec_at(frame as int, band as int),
    {
        let len: usize = self.data.len();
        assert(0 <= frame * self.n_mels && frame * self.n_mels + band < len) by {
            lemma_cell_in_bounds(
                self.n_frames as int,
                self.n_mels as int,
                frame as int,
                band as int,
            );
        }
        &self.data[frame * self.n_mels + band]
    }

    /// The energies of frame `frame`, by band.
    pub fn frame(&self, frame: usize) -> (row: &[E])
        requires
            self.wf(),
            frame < self.n_frames,
        ensures
            row@ == self.spec_frame(frame as int),
            row@.len() == self.n_mels,
    {
        let len: usize = self.data.len();
        assert(0 <= frame * self.n_mels && frame * self.n_mels + self.n_mels <= len) by {
            lemma_row_in_bounds(self.n_frames as int, self.n_mels as int, frame as int);
        }
        let start: usize = frame * self.n_mels;
        slice_subrange(self.data.as_slice(), start, start + self.n_mels)
    }
}

/// Row `frame` of a matrix of `n_frames` rows of `n_mels` cells lies within it.
pub proof fn lemma_row_in_bounds(n_frames: int, n_mels: int, frame: int)
    requires
        0 <= frame < n_frames,
        0 <= n_mels,
    ensures
        0 <= frame * n_mels,
        frame * n_mels + n_mels <= n_frames * n_mels,
{
    assert(0 <= frame * n_mels && (frame + 1) * n_mels <= n_frames * n_mels
        && (frame + 1) * n_mels == frame * n_mels + n_mels) by (nonlinear_arith)
        requires
            0 <= frame,
            frame + 1 <= n_frames,
            0 <= n_mels,
    ;
}

/// Cell (`frame`, `band`) of a matrix lies within it.
pub proof fn lemma_cell_in_bounds(n_frames: int, n_mels: int, frame: int, band: int)
    requires
        0 <= frame < n_frames,
        0 <= band < n_mels,
    ensures
        0 <= frame * n_mels + band < n_frames * n_mels,
{
    lemma_row_in_bounds(n_frames, n_mels, frame);
}

/// Frame vectors of one size concatenate to a sequence of whole rows, in
/// which each energy stands at its frame's row and its band's column.
pub proof fn lemma_concat_uniform<E>(frames: Seq<Vec<E>>, n_mels: int, n: int)
    requires
        uniform_frames(frames, n_mels),
        0 <= n <= frames.len(),
        0 <= n_mels,
    ensures
        concat_frames(frames, n).len() == n * n_mels,
        forall|f: int, b: int|
            0 <= f < n && 0 <= b < n_mels ==> concat_frames(frames, n)[f * n_mels + b]
                == #[trigger] frames[f]@[b],
    decreases n,
{
    if n > 0 {
        lemma_concat_uniform(frames, n_mels, n - 1);
        let before = concat_frames(frames, n - 1);
        assert(before.len() == (n - 1) * n_mels);
        assert(frames[n - 1]@.len() == n_mels);
        assert(concat_frames(frames, n) == before + frames[n - 1]@);
        assert((n - 1) * n_mels + n_mels == n * n_mels) by (nonlinear_arith);
        assert forall|f: int, b: int| 0 <= f < n && 0 <= b < n_mels implies concat_frames(
            frames,
            n,
        )[f * n_mels + b] == #[trigger] frames[f]@[b] by {
            if f < n - 1 {
                lemma_cell_in_bounds(n - 1, n_mels, f, b);
            } else {
                assert(f * n_mels + b - before.len() == b);
            }
        }
    } else {
        assert(concat_frames(frames, n).len() == 0);
        assert(n * n_mels == 0) by (nonlinear_arith)
            requires
                n == 0,
        ;
    }
}

/// `r` is what assembling `frames` with `n_mels` bands gives: the matrix of
/// the concatenated vectors, or the internal error where their total length
/// is not a whole number of rows.
pub open spec fn assembles_to<E>(
    frames: Seq<Vec<E>>,
    n_mels: usize,
    r: Result<MelMatrix<E>, PipelineError>,
) -> bool {
    let flat = concat_frames(frames, frames.len() as int);
    match r {
        Ok(m) => {
            &&& flat.len() % (n_mels as nat) == 0
            &&& m.data@ == flat
            &&& m.n_mels == n_mels
            &&& m.n_frames == flat.len() / (n_mels as nat)
            &&& m.wf()
        },
        Err(e) => e == PipelineError::InconsistentMelLength && flat.len() % (n_mels as nat) != 0,
    }
}

/// Concatenates the frame vectors in frame order and gives the result its
/// dimensions; fails if the total is not a whole number of rows.
pub fn assemble<E: Copy>(frames: &Vec<Vec<E>>, n_mels: usize) -> (r: Result<
    MelMatrix<E>,
    PipelineError,
>)
    requires
        n_mels > 0,
    ensures
        assembles_to(frames@, n_mels, r),
{
    let mut data: Vec<E> = Vec::new();
    let mut f: usize = 0;
    while f < frames.len()
        invariant
            f <= frames@.len(),
            data@ == concat_frames(frames@, f as int),
        decreases frames@.len() - f,
    {
        let row = &frames[f];
        let mut b: usize = 0;
        while b < row.len()
            invariant
                f < frames@.len(),
                row == frames@[f as int],
                b <= row@.len(),
                data@ == concat_frames(frames@, f as int) + row@.take(b as int),
            decreases row@.len() - b,
        {
            data.push(row[b]);
            b += 1;
            assert(data@ =~= concat_frames(frames@, f as int) + row@.take(b as int));
        }
        assert(row@.take(b as int) =~= row@);
        f += 1;
    }
    MelMatrix::from_flat(data, n_mels)
}

/// `energies` is a vector that `project` may return for a slice holding `window`.
pub open spec fn projects_to<S, E, K: Fn(&[S]) -> Vec<E>>(
    project: K,
    window: Seq<S>,
    energies: Vec<E>,
) -> bool {
    exists|w: &[S]| w@ == window && #[trigger] call_ensures(project, (w,), energies)
}

/// `frames` holds, for each hop of the signal in order, a vector that
/// `project` may return for the hop's window.
pub open spec fn projected_frames<S, E, K: Fn(&[S]) -> Vec<E>>(
    project: K,
    pcm: Seq<S>,
    silence: S,
    frames: Seq<Vec<E>>,
) -> bool {
    &&& frames.len() == hop_count(pcm.len() as int)
    &&& forall|h: int|
        0 <= h < frames.len() ==> projects_to(
            project,
            window_of(pcm, silence, h),
            #[trigger] frames[h],
        )
}

/// `project` returns `n_mels` energies whatever window it is given.
pub open spec fn projects_uniformly<S, E, K: Fn(&[S]) -> Vec<E>>(project: K, n_mels: int) -> bool {
    forall|w: &[S], v: Vec<E>| #[trigger] call_ensures(project, (w,), v) ==> v@.len() == n_mels
}

/// Turns a mono signal at the target rate into its mel matrix.
///
/// The signal is cut into windows, one per hop; `project` turns each window
/// into the mel energies of its frame; the vectors are assembled in hop order.
/// With a `project` that returns `n_mels` energies every time, the result is
/// a matrix of one row for each hop.
pub fn pcm_to_mel_frames_flat<S: Copy, E: Copy, K>(
    pcm: &[S],
    n_mels: usize,
    silence: S,
    project: K,
) -> (r: Result<MelMatrix<E>, PipelineError>) where K: Fn(&[S]) -> Vec<E>
    requires
        n_mels > 0,
        forall|w: &[S]| w@.len() == FRAME_SIZE ==> call_requires(project, (w,)),
    ensures
        exists|frames: Seq<Vec<E>>|
            #[trigger] projected_frames(project, pcm@, silence, frames) && assembles_to(
                frames,
                n_mels,
                r,
            ),
        projects_uniformly(project, n_mels as int) ==> r is Ok && r->Ok_0.n_frames == hop_count(
            pcm@.len() as int,
        ),
{
    let total: usize = hop_total(pcm.len());
    let mut frames: Vec<Vec<E>> = Vec::with_capacity(total);
    let mut h: usize = 0;
    while h < total
        invariant
            h <= total,
            total == hop_count(pcm@.len() as int),
            frames@.len() == h,
            forall|w: &[S]| w@.len() == FRAME_SIZE ==> call_requires(project, (w,)),
            forall|g: int|
                0 <= g < h ==> projects_to(
                    project,
                    window_of(pcm@, silence, g),
                    #[trigger] frames@[g],
                ),
        decreases total - h,
    {
        let window = window_at(pcm, h, silence);
        let energies = project(window.as_slice());
        assert(projects_to(project, window_of(pcm@, silence, h as int), energies));
        frames.push(energies);
        h += 1;
    }
    let r = assemble(&frames, n_mels);
    proof {
        assert(projected_frames(project, pcm@, silence, frames@));
        if projects_uniformly(project, n_mels as int) {
            assert forall|f: int| 0 <= f < frames@.len() implies (#[trigger] frames@[f])@.len()
                == n_mels by {
                assert(projects_to(project, window_of(pcm@, silence, f), frames@[f]));
            }
            lemma_concat_uniform(frames@, n_mels as int, frames@.len() as int);
            let n = frames@.len() as int;
            let k = n_mels as int;
            assert((n * k) % k == 0 && (n * k) / k == n) by (nonlinear_arith)
                requires
                    k > 0,
                    n >= 0,
            ;
        }
    }
    r
}

/// Frame vectors of `n_mels` energies each always assemble: the matrix has one
/// row per vector, and cell (`f`, `b`) is energy `b` of vector `f`.
pub proof fn lemma_assemble_uniform<E>(frames: Seq<Vec<E>>, n_mels: int, m: MelMatrix<E>)
    requires
        n_mels > 0,
        uniform_frames(frames, n_mels),
        m.data@ == concat_frames(frames, frames.len() as int),
        m.n_mels == n_mels,
    ensures
        m.data@.len() % (n_mels as nat) == 0,
        m.data@.len() / (n_mels as nat) == frames.len(),
        forall|f: int, b: int|
            0 <= f < frames.len() && 0 <= b < n_mels ==> m.spec_at(f, b) == #[trigger] frames[f]@[b],
{
    let n = frames.len() as int;
    lemma_concat_uniform(frames, n_mels, n);
    assert((n * n_mels) % n_mels == 0 && (n * n_mels) / n_mels == n) by (nonlinear_arith)
        requires
            n_mels > 0,
            n >= 0,
    ;
}

} // verus!
