//! The resampler, as the decoder sees it.
//!
//! It is the fixed-chunk FFT resampler of the `rubato` crate, which works on
//! floating-point planes; the samples are converted on the way in and out
//! with `dasp`. What it computes is not stated here, only how much.

use vstd::prelude::*;

verus! {

/// The resampler on the floating-point type that goes with 16-bit samples.
pub type FftResampler = rubato::FftFixedInOut<<i16 as dasp::Sample>::Float>;

#[verifier::external_type_specification]
#[verifier::external_body]
#[verifier::reject_recursive_types(T)]
pub struct ExFftFixedInOut<T>(rubato::FftFixedInOut<T>);

#[verifier::external_type_specification]
#[verifier::external_body]
pub struct ExResamplerConstructionError(rubato::ResamplerConstructionError);

/// The frames that a resampler takes of every channel at a time.
pub uninterp spec fn chunk_frames_in(resampler: FftResampler) -> nat;

/// The frames that a resampler gives of every channel at a time.
pub uninterp spec fn chunk_frames_out(resampler: FftResampler) -> nat;

/// The channels that a resampler was made for.
pub uninterp spec fn chunk_channels(resampler: FftResampler) -> nat;

/// The most frames that the chunk that goes in may come to. The resampler
/// cubes the frames of its smaller chunk when it works out its filter, and
/// the cube must be a number that can be counted.
pub const CHUNK_FRAMES_LIMIT: usize = 2_000_000;

/// Whether a resampler can be asked for: the chunk is not empty; the chunk
/// that goes in, which has fewer frames than the frames asked for and the
/// rate that comes in together, stays within the limit, and its cube can be
/// counted; and the buffers that the resampler works out can be allocated.
/// A chunk has at most twice the frames asked for at a rate, and the
/// largest buffer takes sixteen bytes and a few for every such frame.
pub open spec fn chunk_fits(rate_in: usize, rate_out: usize, chunk_size: usize) -> bool {
    &&& chunk_size > 0
    &&& chunk_size + rate_in <= CHUNK_FRAMES_LIMIT
    &&& (chunk_size + rate_in) * (chunk_size + rate_in) * (chunk_size + rate_in) <= usize::MAX
    &&& 64 * chunk_size * rate_in <= usize::MAX
    &&& 64 * chunk_size * rate_out <= usize::MAX
}

/// Tests whether a resampler can be asked for.
pub fn chunk_is_fit(rate_in: usize, rate_out: usize, chunk_size: usize) -> (fits: bool)
    ensures
        fits == chunk_fits(rate_in, rate_out, chunk_size),
{
    if chunk_size == 0 {
        return false;
    }
    let frames = match chunk_size.checked_add(rate_in) {
        Some(frames) => frames,
        None => {
            return false;
        },
    };
    if frames > CHUNK_FRAMES_LIMIT {
        return false;
    }
    let cubed = match frames.checked_mul(frames) {
        Some(squared) => squared.checked_mul(frames).is_some(),
        None => {
            assert(frames * frames * frames >= frames * frames) by (nonlinear_arith)
                requires
                    frames >= 1,
            ;
            false
        },
    };
    let wide: usize = 64 * chunk_size;
    cubed && wide.checked_mul(rate_in).is_some() && wide.checked_mul(rate_out).is_some()
}

/// `FftFixedInOut::new`: a resampler from one rate to another for so many
/// channels, which takes about `chunk_size` frames at a time. It is refused
/// where a rate is zero, and for nothing else. Its chunks are not empty,
/// and their frames are to each other as the rates are: both are the same
/// multiple of the rates' parts without their common divisor.
/// It cubes the frames of its smaller chunk and allocates buffers for both,
/// which is why the chunk must fit.
#[verifier::external_body]
pub(crate) fn fft_new(
    rate_in: usize,
    rate_out: usize,
    chunk_size: usize,
    channels: usize,
) -> (r: Result<FftResampler, rubato::ResamplerConstructionError>)
    requires
        chunk_fits(rate_in, rate_out, chunk_size),
    ensures
        r is Ok <==> (rate_in > 0 && rate_out > 0),
        r matches Ok(resampler) ==> chunk_channels(resampler) == channels,
        r matches Ok(resampler) ==> chunk_frames_in(resampler) > 0,
        r matches Ok(resampler) ==> chunk_frames_out(resampler) > 0,
        r matches Ok(resampler) ==> chunk_frames_in(resampler) * rate_out == chunk_frames_out(
            resampler,
        ) * rate_in,
{
    rubato::FftFixedInOut::new(rate_in, rate_out, chunk_size, channels)
}

/// `Resampler::input_frames_next`: the frames that the resampler takes of
/// every channel at a time.
#[verifier::external_body]
pub(crate) fn fft_frames_in(resampler: &FftResampler) -> (frames: usize)
    ensures
        frames == chunk_frames_in(*resampler),
{
    rubato::Resampler::input_frames_next(resampler)
}

/// `Resampler::output_frames_next`: the frames that the resampler gives of
/// every channel at a time.
#[verifier::external_body]
pub(crate) fn fft_frames_out(resampler: &FftResampler) -> (frames: usize)
    ensures
        frames == chunk_frames_out(*resampler),
{
    rubato::Resampler::output_frames_next(resampler)
}

/// `Resampler::process`: resamples one chunk. It takes one plane for every
/// channel, each with a chunk's frames at least, and gives one plane for
/// every channel, each with a chunk's frames. The sizes of the resampler
/// stay as they are.
#[verifier::external_body]
pub(crate) fn fft_process(
    resampler: &mut FftResampler,
    input: &Vec<Vec<i16>>,
) -> (output: Vec<Vec<i16>>)
    requires
        input@.len() == chunk_channels(*old(resampler)),
        forall|c: int|
            0 <= c < input@.len() ==> (#[trigger] input@[c])@.len() >= chunk_frames_in(
                *old(resampler),
            ),
    ensures
        chunk_frames_in(*final(resampler)) == chunk_frames_in(*old(resampler)),
        chunk_frames_out(*final(resampler)) == chunk_frames_out(*old(resampler)),
        chunk_channels(*final(resampler)) == chunk_channels(*old(resampler)),
        output@.len() == chunk_channels(*old(resampler)),
        forall|c: int|
            0 <= c < output@.len() ==> (#[trigger] output@[c])@.len() == chunk_frames_out(
                *old(resampler),
            ),
{
    let wave_in: Vec<Vec<_>> = input.iter().map(
        |plane| plane.iter().map(|s| dasp::Sample::to_sample(*s)).collect(),
    ).collect();
    let wave_out = rubato::Resampler::process(resampler, &wave_in, None).unwrap_or_default();
    wave_out.iter().map(
        |plane| plane.iter().map(|s| dasp::Sample::to_sample(*s)).collect(),
    ).collect()
}

} // verus!
