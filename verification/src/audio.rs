//! The layout of the audio output buffer that the mixer's output is spread
//! over.

use vstd::prelude::*;

verus! {

/// The audio plugin. The device output callback renders whole frames and
/// writes each frame's value into every channel of that frame in the
/// interleaved output buffer.
pub struct OddioPlugin;

/// The whole frames of a buffer fit in it, so spreading them never writes
/// past its end.
pub proof fn lemma_whole_frames_fit(samples: nat, channels: nat)
    requires
        channels > 0,
    ensures
        (samples / channels) * channels <= samples,
{
    assert((samples / channels) * channels <= samples) by (nonlinear_arith)
        requires
            channels > 0,
    ;
}

impl OddioPlugin {
    /// The number of whole frames in an interleaved buffer of `samples`
    /// samples over `channels` channels, a channel count of zero counting as
    /// one.
    pub fn frame_count(samples: usize, channels: usize) -> (frames: usize)
        ensures
            frames == samples / (if channels == 0 {
                1
            } else {
                channels
            }),
    {
        let divisor = if channels == 0 {
            1
        } else {
            channels
        };
        samples / divisor
    }

    /// Writes each frame's value into every channel of that frame:
    /// `data[f * channels + c]` becomes `frames[f]`; samples after the last
    /// whole frame keep their value.
    pub fn spread_frames<T: Copy>(frames: &[T], channels: usize, data: &mut [T])
        requires
            frames@.len() * channels <= old(data)@.len(),
        ensures
            final(data)@.len() == old(data)@.len(),
            forall|f: int, c: int|
                0 <= f < frames@.len() && 0 <= c < channels ==> #[trigger] final(data)@[f
                    * channels + c] == frames@[f],
            forall|k: int|
                frames@.len() * channels <= k < old(data)@.len() ==> #[trigger] final(data)@[k]
                    == old(data)@[k],
    {
        let n = frames.len();
        let len = data.len();
        let mut f: usize = 0;
        let mut base: usize = 0;
        while f < n
            invariant
                n == frames@.len(),
                n * channels <= data@.len(),
                len == data@.len(),
                data@.len() == old(data)@.len(),
                f <= n,
                base == f * channels,
                forall|g: int, c: int|
                    0 <= g < f && 0 <= c < channels ==> #[trigger] data@[g * channels + c]
                        == frames@[g],
                forall|k: int| base <= k < data@.len() ==> #[trigger] data@[k] == old(data)@[k],
            decreases n - f,
        {
            proof {
                assert((f + 1) * channels == f * channels + channels) by (nonlinear_arith);
                assert((f + 1) * channels <= n * channels) by (nonlinear_arith)
                    requires
                        f + 1 <= n,
                ;
            }
            let value = frames[f];
            let mut c: usize = 0;
            while c < channels
                invariant
                    n == frames@.len(),
                    n * channels <= data@.len(),
                    len == data@.len(),
                    data@.len() == old(data)@.len(),
                    f < n,
                    base == f * channels,
                    base + channels <= data@.len(),
                    c <= channels,
                    value == frames@[f as int],
                    forall|g: int, c2: int|
                        0 <= g < f && 0 <= c2 < channels ==> #[trigger] data@[g * channels + c2]
                            == frames@[g],
                    forall|c2: int| 0 <= c2 < c ==> #[trigger] data@[base + c2] == value,
                    forall|k: int| base + c <= k < data@.len() ==> #[trigger] data@[k] == old(
                        data,
                    )@[k],
                decreases channels - c,
            {
                let ghost before = data@;
                data[base + c] = value;
                proof {
                    assert forall|g: int, c2: int|
                        0 <= g < f && 0 <= c2 < channels implies #[trigger] data@[g * channels
                        + c2] == frames@[g] by {
                        assert(g * channels + channels <= f * channels) by (nonlinear_arith)
                            requires
                                g < f,
                        ;
                        assert(before[g * channels + c2] == frames@[g]);
                    }
                }
                c = c + 1;
            }
            proof {
                assert forall|g: int, c2: int|
                    0 <= g < f + 1 && 0 <= c2 < channels implies #[trigger] data@[g * channels
                    + c2] == frames@[g] by {
                    if g == f {
                        assert(data@[base + c2] == value);
                    }
                }
            }
            base = base + channels;
            f = f + 1;
        }
    }
}

} // verus!
