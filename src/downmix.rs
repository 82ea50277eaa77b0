//! Downmix of integer-encoded sample buffers to mono, kept exact: each mono
//! frame is a sum of centred channel samples over a common scale.

use vstd::prelude::*;

verus! {

/// The integer sample encodings that a decoded buffer may have.
#[derive(PartialEq, Eq, Structural, Clone, Copy, Debug)]
pub enum IntEncoding {
    Signed16,
    Signed32,
    Unsigned8,
}

/// The divisor that maps a centred sample of the encoding into `[-1, 1]`.
pub open spec fn full_scale(e: IntEncoding) -> int {
    match e {
        IntEncoding::Signed16 => 32768,
        IntEncoding::Signed32 => 2147483648,
        IntEncoding::Unsigned8 => 128,
    }
}

/// The raw value that stands for silence in the encoding.
pub open spec fn centre(e: IntEncoding) -> int {
    match e {
        IntEncoding::Unsigned8 => 128,
        _ => 0,
    }
}

/// Whether a raw value is one that the encoding can hold.
pub open spec fn raw_in_range(e: IntEncoding, x: int) -> bool {
    match e {
        IntEncoding::Signed16 => -32768 <= x < 32768,
        IntEncoding::Signed32 => -2147483648 <= x < 2147483648,
        IntEncoding::Unsigned8 => 0 <= x < 256,
    }
}

/// The sum over the first `n` channels of the centred sample at frame `i`.
pub open spec fn frame_sum(planes: Seq<Vec<i32>>, e: IntEncoding, i: int, n: int) -> int
    decreases n,
{
    if n <= 0 {
        0
    } else {
        frame_sum(planes, e, i, n - 1) + (planes[n - 1]@[i] - centre(e))
    }
}

/// Mono frames of one buffer: frame `i` is `sums[i] / scale`, the mean over
/// the channels of each channel's normalized sample.
pub struct MonoFrames {
    pub sums: Vec<i128>,
    pub scale: u128,
}

fn scale_of(e: IntEncoding) -> (r: u128)
    ensures
        r == full_scale(e),
{
    match e {
        IntEncoding::Signed16 => 32768,
        IntEncoding::Signed32 => 2147483648,
        IntEncoding::Unsigned8 => 128,
    }
}

fn centre_of(e: IntEncoding) -> (r: i128)
    ensures
        r == centre(e),
{
    match e {
        IntEncoding::Unsigned8 => 128,
        _ => 0,
    }
}

/// Downmixes a buffer given as one plane of raw samples per channel (widened
/// to `i32`) into `frames` mono frames.
pub fn downmix(planes: &Vec<Vec<i32>>, frames: usize, encoding: IntEncoding) -> (r: MonoFrames)
    requires
        planes.len() >= 1,
        forall|c: int| 0 <= c < planes.len() ==> #[trigger] planes[c].len() >= frames,
    ensures
        r.scale == full_scale(encoding) * planes.len(),
        r.sums.len() == frames,
        forall|i: int|
            0 <= i < frames ==> #[trigger] r.sums[i] == frame_sum(
                planes@,
                encoding,
                i,
                planes.len() as int,
            ),
{
    let channels = planes.len();
    let offset = centre_of(encoding);
    let mut sums: Vec<i128> = Vec::with_capacity(frames);
    let mut i: usize = 0;
    while i < frames
        invariant
            i <= frames,
            channels == planes.len(),
            offset == centre(encoding),
            forall|c: int| 0 <= c < planes.len() ==> #[trigger] planes[c].len() >= frames,
            sums.len() == i,
            forall|k: int|
                0 <= k < i ==> #[trigger] sums[k] == frame_sum(
                    planes@,
                    encoding,
                    k,
                    planes.len() as int,
                ),
        decreases frames - i,
    {
        let mut acc: i128 = 0;
        let mut c: usize = 0;
        while c < channels
            invariant
                c <= channels,
                i < frames,
                channels == planes.len(),
                offset == centre(encoding),
                forall|c: int| 0 <= c < planes.len() ==> #[trigger] planes[c].len() >= frames,
                acc == frame_sum(planes@, encoding, i as int, c as int),
                -(c as int) * 4294967296 <= acc <= (c as int) * 4294967296,
            decreases channels - c,
        {
            assert(planes[c as int].len() >= frames);
            acc = acc + (planes[c][i] as i128 - offset);
            c = c + 1;
        }
        sums.push(acc);
        i = i + 1;
    }
    let scale = scale_of(encoding) * (channels as u128);
    MonoFrames { sums, scale }
}

proof fn frame_sum_bound(planes: Seq<Vec<i32>>, e: IntEncoding, i: int, n: int)
    requires
        0 <= n <= planes.len(),
        forall|c: int| 0 <= c < n ==> raw_in_range(e, #[trigger] planes[c]@[i] as int),
    ensures
        -(full_scale(e) * n) <= frame_sum(planes, e, i, n) <= full_scale(e) * n,
    decreases n,
{
    if n > 0 {
        frame_sum_bound(planes, e, i, n - 1);
        assert(raw_in_range(e, planes[n - 1]@[i] as int));
        assert(full_scale(e) * n == full_scale(e) * (n - 1) + full_scale(e)) by (nonlinear_arith);
    }
}

/// A mono frame made of samples that the encoding can hold lies in
/// `[-1, 1]`: its sum is at most the scale in magnitude, so every peak taken
/// over such frames is in `[0, 1]`.
pub proof fn downmix_stays_normalized(planes: Seq<Vec<i32>>, e: IntEncoding, i: int)
    requires
        planes.len() >= 1,
        forall|c: int| 0 <= c < planes.len() ==> raw_in_range(e, #[trigger] planes[c]@[i] as int),
    ensures
        -(full_scale(e) * planes.len()) <= frame_sum(planes, e, i, planes.len() as int)
            <= full_scale(e) * planes.len(),
{
    frame_sum_bound(planes, e, i, planes.len() as int);
}

} // verus!
