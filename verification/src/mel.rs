//! Reshaping of log-mel frames into the mel-major layout the encoder reads.

use vstd::prelude::*;
use vstd::arithmetic::div_mod::lemma_fundamental_div_mod_converse;

verus! {

/// The frames as sequences of values.
pub open spec fn frame_rows<F>(frames: Seq<Vec<F>>) -> Seq<Seq<F>> {
    frames.map_values(|v: Vec<F>| v@)
}

/// The value at mel bin `m` of frame `f`, or `fill` where that frame is shorter.
pub open spec fn mel_cell<F>(frames: Seq<Seq<F>>, fill: F, m: int, f: int) -> F {
    if m < frames[f].len() {
        frames[f][m]
    } else {
        fill
    }
}

/// The frames laid out mel-major: one row of `frames.len()` values per mel bin,
/// as many bins as the first frame has, rows one after another.
pub open spec fn mel_major<F>(frames: Seq<Seq<F>>, fill: F) -> Seq<F> {
    let n_frames = frames.len();
    let n_mels = frames[0].len();
    Seq::new(n_mels * n_frames, |i: int| mel_cell(frames, fill, i / n_frames as int, i % n_frames as int))
}

/// Whether the frames can be laid out: none is longer than the first, and the
/// layout fits in memory.
pub open spec fn mel_frames_fit<F>(frames: Seq<Seq<F>>) -> bool {
    &&& forall|f: int| 0 <= f < frames.len() ==> #[trigger] frames[f].len() <= frames[0].len()
    &&& frames.len() > 0 ==> frames[0].len() * frames.len() <= usize::MAX
}

/// The log-mel input of the encoder: values mel-major, with the two extents.
pub struct MelGrid<F> {
    pub values: Vec<F>,
    pub n_mels: usize,
    pub n_frames: usize,
}

/// The reason no input can be made of an empty frame list.
pub open spec fn too_short_text() -> Seq<char> {
    "Audio too short to produce mel frames"@
}

/// Lays the log-mel frames out mel-major; bins missing from a shorter frame
/// take `fill`. No frame at all is an error.
pub fn mel_grid<F: Copy>(frames: &Vec<Vec<F>>, fill: F) -> (r: Result<MelGrid<F>, String>)
    requires
        mel_frames_fit(frame_rows(frames@)),
    ensures
        frames.len() == 0 ==> (r matches Err(e) && e@ == too_short_text()),
        frames.len() > 0 ==> (r matches Ok(g) && {
            &&& g.n_frames == frames.len()
            &&& g.n_mels == frames[0].len()
            &&& g.values@ == mel_major(frame_rows(frames@), fill)
        }),
{
    let n_frames = frames.len();
    if n_frames == 0 {
        return Err(String::from_str("Audio too short to produce mel frames"));
    }
    let n_mels = frames[0].len();
    let ghost rows = frame_rows(frames@);
    assert(rows[0].len() == n_mels);
    let mut out: Vec<F> = Vec::new();
    let mut m: usize = 0;
    while m < n_mels
        invariant
            rows == frame_rows(frames@),
            n_frames == frames.len() > 0,
            n_mels == rows[0].len(),
            mel_frames_fit(rows),
            m <= n_mels,
            out.len() == m * n_frames,
            forall|k: int| 0 <= k < out.len() ==>
                #[trigger] out@[k] == mel_cell(rows, fill, k / n_frames as int, k % n_frames as int),
        decreases n_mels - m,
    {
        let mut f: usize = 0;
        assert(m * n_frames + n_frames == (m + 1) * n_frames) by (nonlinear_arith);
        assert((m + 1) * n_frames <= n_mels * n_frames) by (nonlinear_arith)
            requires m + 1 <= n_mels;
        while f < n_frames
            invariant
                rows == frame_rows(frames@),
                n_frames == frames.len() > 0,
                n_mels == rows[0].len(),
                mel_frames_fit(rows),
                m < n_mels,
                f <= n_frames,
                (m + 1) * n_frames <= n_mels * n_frames <= usize::MAX,
                m * n_frames + n_frames == (m + 1) * n_frames,
                out.len() == m * n_frames + f,
                forall|k: int| 0 <= k < out.len() ==>
                    #[trigger] out@[k] == mel_cell(rows, fill, k / n_frames as int, k % n_frames as int),
            decreases n_frames - f,
        {
            assert(rows[f as int] == frames@[f as int]@);
            let v = if m < frames[f].len() {
                frames[f][m]
            } else {
                fill
            };
            proof {
                lemma_fundamental_div_mod_converse(
                    (m * n_frames + f) as int,
                    n_frames as int,
                    m as int,
                    f as int,
                );
            }
            out.push(v);
            f = f + 1;
        }
        m = m + 1;
    }
    assert(out@ =~= mel_major(rows, fill));
    Ok(MelGrid { values: out, n_mels, n_frames })
}

} // verus!
