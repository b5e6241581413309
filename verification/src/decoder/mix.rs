//! Channel mixing, volume scaling and silence trimming on interleaved blocks.

use crate::sample::{downmix_pair, downmixed_pair, mul_amp, scaled, Volume, MID};
use vstd::prelude::*;

verus! {

/// A mono block played on two channels: every sample twice, scaled.
pub open spec fn upmixed(src: Seq<i16>, v: Volume) -> Seq<i16> {
    Seq::new(2 * src.len(), |i: int| scaled(src[i / 2], v))
}

/// A stereo block played on one channel: the scaled mean of every whole pair.
pub open spec fn downmixed(src: Seq<i16>, v: Volume) -> Seq<i16> {
    Seq::new(src.len() / 2, |i: int| downmixed_pair(src[2 * i], src[2 * i + 1], v))
}

/// A block with every sample scaled.
pub open spec fn scaled_all(src: Seq<i16>, v: Volume) -> Seq<i16> {
    Seq::new(src.len(), |i: int| scaled(src[i], v))
}

/// What a decoded block becomes on its way out: one channel to two is
/// duplicated, two to one is averaged, anything else is copied; all scaled.
pub open spec fn mixed(
    src: Seq<i16>,
    input_channels: usize,
    output_channels: usize,
    v: Volume,
) -> Seq<i16> {
    if input_channels == 1 && output_channels == 2 {
        upmixed(src, v)
    } else if input_channels == 2 && output_channels == 1 {
        downmixed(src, v)
    } else {
        scaled_all(src, v)
    }
}

/// Whether every sample of a block is silence.
pub open spec fn all_silent(block: Seq<i16>) -> bool {
    forall|i: int| 0 <= i < block.len() ==> block[i] == MID
}

/// Whether `index` is where the first sample that is not silence stands.
pub open spec fn is_first_sound(block: Seq<i16>, index: int) -> bool {
    &&& 0 <= index < block.len()
    &&& block[index] != MID
    &&& all_silent(block.subrange(0, index))
}

/// Where trimming starts for a block whose first sound is at `index`: one
/// back from an odd index when the output is stereo, so pairs stay pairs.
pub open spec fn trim_point(index: int, output_channels: usize) -> int {
    if output_channels == 2 && index % 2 == 1 {
        index - 1
    } else {
        index
    }
}

/// Whether trimming a block starts at `skipped`: the trim point of the
/// block's first sound.
pub open spec fn trims_at(block: Seq<i16>, output_channels: usize, skipped: int) -> bool {
    exists|index: int|
        #[trigger] is_first_sound(block, index) && skipped == trim_point(index, output_channels)
}

/// Makes room for a block of `samples_length` samples. The buffer only ever
/// grows; when it does, it is handed back as silence.
pub fn adjust_buffer_size(buf: &mut Vec<i16>, samples_length: usize)
    ensures
        samples_length <= old(buf)@.len() ==> final(buf)@ == old(buf)@,
        samples_length > old(buf)@.len() ==> final(buf)@ == Seq::new(
            samples_length as nat,
            |i: int| MID,
        ),
{
    if samples_length > buf.len() {
        buf.clear();
        buf.resize(samples_length, MID);
        assert(buf@ =~= Seq::new(samples_length as nat, |i: int| MID));
    }
}

/// Overwrites every sample of the buffer with silence.
pub fn silence(buf: &mut Vec<i16>)
    ensures
        final(buf)@ == Seq::new(old(buf)@.len(), |i: int| MID),
{
    let n = buf.len();
    let mut i: usize = 0;
    while i < n
        invariant
            i <= n,
            n == buf@.len(),
            buf@.len() == old(buf)@.len(),
            forall|j: int| 0 <= j < i ==> buf@[j] == MID,
        decreases n - i,
    {
        buf[i] = MID;
        i += 1;
    }
    assert(buf@ =~= Seq::new(old(buf)@.len(), |i: int| MID));
}

/// Mixes one decoded block into the output buffer and returns how many
/// samples of the buffer now belong to the block.
///
/// The block fills the front of the buffer; what lies behind it is left as it
/// was, unless the buffer had to grow.
pub fn mix_into(
    buf: &mut Vec<i16>,
    samples: &Vec<i16>,
    input_channels: usize,
    output_channels: usize,
    volume: Volume,
) -> (n: usize)
    requires
        2 * samples@.len() <= usize::MAX,
    ensures
        n == mixed(samples@, input_channels, output_channels, volume).len(),
        final(buf)@.subrange(0, n as int) == mixed(
            samples@,
            input_channels,
            output_channels,
            volume,
        ),
        final(buf)@.len() == if n > old(buf)@.len() {
            n as nat
        } else {
            old(buf)@.len()
        },
        forall|i: int|
            n <= i < old(buf)@.len() ==> #[trigger] final(buf)@[i] == old(buf)@[i],
{
    let samples_len = samples.len();
    let ghost before = buf@;
    if input_channels == 1 && output_channels == 2 {
        let n = samples_len * 2;
        adjust_buffer_size(buf, n);
        let ghost sized = buf@;
        let mut k: usize = 0;
        while k < samples_len
            invariant
                k <= samples_len,
                samples_len == samples@.len(),
                n == 2 * samples_len,
                buf@.len() == sized.len(),
                sized.len() >= n,
                forall|j: int| 0 <= j < 2 * k ==> buf@[j] == scaled(samples@[j / 2], volume),
                forall|j: int| 2 * k <= j < buf@.len() ==> buf@[j] == sized[j],
            decreases samples_len - k,
        {
            let s = mul_amp(samples[k], volume);
            buf[2 * k] = s;
            buf[2 * k + 1] = s;
            k += 1;
        }
        assert(buf@.subrange(0, n as int) =~= upmixed(samples@, volume));
        n
    } else if input_channels == 2 && output_channels == 1 {
        let n = samples_len / 2;
        adjust_buffer_size(buf, n);
        let ghost sized = buf@;
        let mut k: usize = 0;
        while k < n
            invariant
                k <= n,
                samples_len == samples@.len(),
                n == samples_len / 2,
                buf@.len() == sized.len(),
                sized.len() >= n,
                forall|j: int|
                    0 <= j < k ==> buf@[j] == downmixed_pair(
                        samples@[2 * j],
                        samples@[2 * j + 1],
                        volume,
                    ),
                forall|j: int| k <= j < buf@.len() ==> buf@[j] == sized[j],
            decreases n - k,
        {
            buf[k] = downmix_pair(samples[2 * k], samples[2 * k + 1], volume);
            k += 1;
        }
        assert(buf@.subrange(0, n as int) =~= downmixed(samples@, volume));
        n
    } else {
        let n = samples_len;
        adjust_buffer_size(buf, n);
        let ghost sized = buf@;
        let mut k: usize = 0;
        while k < n
            invariant
                k <= n,
                n == samples@.len(),
                buf@.len() == sized.len(),
                sized.len() >= n,
                forall|j: int| 0 <= j < k ==> buf@[j] == scaled(samples@[j], volume),
                forall|j: int| k <= j < buf@.len() ==> buf@[j] == sized[j],
            decreases n - k,
        {
            buf[k] = mul_amp(samples[k], volume);
            k += 1;
        }
        assert(buf@.subrange(0, n as int) =~= scaled_all(samples@, volume));
        n
    }
}

/// Finds the first sample of a block that is not silence.
pub fn first_sound(block: &[i16]) -> (r: Option<usize>)
    ensures
        match r {
            Some(index) => is_first_sound(block@, index as int),
            None => all_silent(block@),
        },
{
    let n = block.len();
    let mut i: usize = 0;
    while i < n
        invariant
            i <= n,
            n == block@.len(),
            forall|j: int| 0 <= j < i ==> block@[j] == MID,
        decreases n - i,
    {
        if block[i] != MID {
            return Some(i);
        }
        i += 1;
    }
    None
}

/// Drops the silence that leads a block of `buf_len` samples at the front of
/// the buffer, and scales what is kept.
///
/// Returns how many samples were dropped and how many are kept, or `None`
/// when the whole block is silence; the buffer is then left as it was.
pub fn trim_leading_silence(
    buf: &mut Vec<i16>,
    buf_len: usize,
    output_channels: usize,
    volume: Volume,
) -> (r: Option<(usize, usize)>)
    requires
        buf_len <= old(buf)@.len(),
    ensures
        final(buf)@.len() == old(buf)@.len(),
        match r {
            Some((skipped, kept)) => {
                &&& trims_at(old(buf)@.subrange(0, buf_len as int), output_channels, skipped as int)
                &&& skipped + kept == buf_len
                &&& final(buf)@.subrange(0, kept as int) == scaled_all(
                    old(buf)@.subrange(skipped as int, buf_len as int),
                    volume,
                )
                &&& forall|i: int|
                    kept <= i < old(buf)@.len() ==> #[trigger] final(buf)@[i] == old(buf)@[i]
            },
            None => {
                &&& all_silent(old(buf)@.subrange(0, buf_len as int))
                &&& final(buf)@ == old(buf)@
            },
        },
{
    let ghost block = buf@.subrange(0, buf_len as int);
    let found = first_sound(vstd::slice::slice_subrange(buf.as_slice(), 0, buf_len));
    match found {
        None => None,
        Some(index) => {
            let start: usize = if output_channels == 2 && index % 2 == 1 {
                index - 1
            } else {
                index
            };
            let kept: usize = buf_len - start;
            assert(is_first_sound(block, index as int));
            assert(trims_at(block, output_channels, start as int));
            let mut k: usize = 0;
            while k < kept
                invariant
                    k <= kept,
                    start + kept == buf_len,
                    buf_len <= buf@.len(),
                    buf@.len() == old(buf)@.len(),
                    forall|j: int| 0 <= j < k ==> buf@[j] == scaled(old(buf)@[start + j], volume),
                    forall|j: int| k <= j < buf@.len() ==> buf@[j] == old(buf)@[j],
                decreases kept - k,
            {
                buf[k] = mul_amp(buf[start + k], volume);
                k += 1;
            }
            assert(buf@.subrange(0, kept as int) =~= scaled_all(
                old(buf)@.subrange(start as int, buf_len as int),
                volume,
            ));
            Some((start, kept))
        },
    }
}

/// A mono block played on two channels has the same sample on both: the
/// source's sample, scaled.
pub proof fn lemma_upmix_pairs(src: Seq<i16>, v: Volume, frame: int)
    requires
        0 <= frame < src.len(),
    ensures
        upmixed(src, v).len() == 2 * src.len(),
        upmixed(src, v)[2 * frame] == scaled(src[frame], v),
        upmixed(src, v)[2 * frame + 1] == scaled(src[frame], v),
{
}

/// A stereo block played on one channel holds, for every whole pair of the
/// source, the scaled mean of the pair.
pub proof fn lemma_downmix_frames(src: Seq<i16>, v: Volume, frame: int)
    requires
        0 <= frame < src.len() / 2,
    ensures
        downmixed(src, v).len() == src.len() / 2,
        downmixed(src, v)[frame] == downmixed_pair(src[2 * frame], src[2 * frame + 1], v),
{
}

/// Where as many channels go out as come in, a block is only scaled: every
/// sample that goes out is the source's sample times the volume.
pub proof fn lemma_equal_channels_only_scale(src: Seq<i16>, channels: usize, v: Volume, i: int)
    requires
        0 <= i < src.len(),
    ensures
        mixed(src, channels, channels, v).len() == src.len(),
        mixed(src, channels, channels, v)[i] == scaled(src[i], v),
{
}

/// A block for two channels is made of pairs, wherever the block that came
/// in was made of whole frames: one channel, or an even count of samples.
pub proof fn lemma_stereo_block_is_pairs(src: Seq<i16>, input_channels: usize, v: Volume)
    requires
        input_channels == 1 || src.len() % 2 == 0,
    ensures
        mixed(src, input_channels, 2, v).len() % 2 == 0,
{
}

/// Where trimming starts, a sound starts: all before is silence, and the
/// sample there is a sound, or, for two channels, the one beside it.
pub proof fn lemma_trim_starts_at_sound(block: Seq<i16>, output_channels: usize, skipped: int)
    requires
        trims_at(block, output_channels, skipped),
    ensures
        0 <= skipped < block.len(),
        all_silent(block.subrange(0, skipped)),
        block[skipped] != MID || (output_channels == 2 && skipped % 2 == 0 && skipped + 1
            < block.len() && block[skipped + 1] != MID),
        output_channels == 2 ==> skipped % 2 == 0,
{
    let index = choose|index: int| #[trigger]
        is_first_sound(block, index) && skipped == trim_point(index, output_channels);
    if skipped != index {
        assert forall|i: int| 0 <= i < skipped implies block.subrange(0, skipped)[i] == MID by {
            assert(block.subrange(0, index)[i] == MID);
        }
    }
}

} // verus!
