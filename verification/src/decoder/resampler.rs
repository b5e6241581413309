//! The decoder behind a resampler: blocks at the rate of the output,
//! whatever the rate of the source.

use crate::decoder::channel_buffer::ChannelBuffer;
use crate::decoder::fft::{
    chunk_channels, chunk_fits, chunk_frames_in, chunk_frames_out, chunk_is_fit, fft_frames_in,
    fft_frames_out, fft_new, fft_process, FftResampler,
};
use crate::decoder::vec_ext::{interleave, VecExt};
use crate::sample::MID;
use crate::decoder::{Decoder, DecoderError, DecoderView, PACKET_LIMIT};
use vstd::prelude::*;

verus! {

/// Whether a source has more to give.
#[derive(Clone, Copy, Debug, PartialEq, Eq, Structural)]
pub enum DecoderResult {
    Finished,
    Unfinished,
}

/// What a resampler is set up with.
#[derive(Clone, Copy, Debug)]
pub struct ResamplerSettings {
    /// About how many frames the resampler takes at a time.
    pub chunk_size: usize,
}

impl Default for ResamplerSettings {
    fn default() -> (settings: ResamplerSettings)
        ensures
            settings.chunk_size == 1024,
    {
        ResamplerSettings { chunk_size: 1024 }
    }
}

/// A resampler with the chunk it is filling and the block it last gave.
struct ResampleDecoderInner {
    /// How much of the decoder's current block was taken.
    written: usize,
    in_buf: ChannelBuffer,
    resampler: FftResampler,
    out_buf: Vec<i16>,
    drawn: Ghost<Seq<i16>>,
    fed: Ghost<Seq<i16>>,
    given: Ghost<Seq<Seq<i16>>>,
}

/// What is left to take of a block of which `taken` samples were taken.
pub open spec fn unread(block: Seq<i16>, taken: nat) -> Seq<i16> {
    if taken < block.len() {
        block.subrange(taken as int, block.len() as int)
    } else {
        Seq::empty()
    }
}

enum ResampledDecoderImpl {
    Resampled(ResampleDecoderInner),
    Native,
}

/// What the next step of filling a chunk is, once the decoder's current
/// block is used up.
#[derive(Clone, Copy, Debug, PartialEq, Eq, Structural)]
pub enum FillStep {
    /// The chunk is full: it is resampled.
    Resample,
    /// The decoder is asked for its next block.
    Advance,
    /// More of the current block is taken.
    Take,
}

/// Decides how filling a chunk goes on: a full chunk is resampled, a block
/// that is used up is followed by the next, and otherwise more is taken of
/// the block.
pub fn fill_step(chunk_full: bool, written: usize, block_len: usize) -> (step: FillStep)
    ensures
        step == if chunk_full {
            FillStep::Resample
        } else if written >= block_len {
            FillStep::Advance
        } else {
            FillStep::Take
        },
{
    if chunk_full {
        FillStep::Resample
    } else if written >= block_len {
        FillStep::Advance
    } else {
        FillStep::Take
    }
}

impl ResampleDecoderInner {
    spec fn wf(&self) -> bool {
        &&& self.in_buf.wf()
        &&& self.in_buf.channel_count() == chunk_channels(self.resampler)
        &&& self.in_buf.frames() == chunk_frames_in(self.resampler)
        &&& chunk_channels(self.resampler) > 0
        &&& chunk_frames_out(self.resampler) * chunk_channels(self.resampler) <= usize::MAX
    }

    /// Resamples the chunk, which is full, and makes the block of it.
    fn resample(&mut self)
        requires
            old(self).wf(),
            old(self).in_buf.full(),
        ensures
            final(self).wf(),
            final(self).in_buf.count() == 0,
            final(self).in_buf.interleaved() == Seq::<i16>::empty(),
            final(self).written == old(self).written,
            final(self).drawn == old(self).drawn,
            final(self).fed@ == old(self).in_buf.interleaved(),
            final(self).fed@.len() == chunk_frames_in(final(self).resampler) * chunk_channels(
                final(self).resampler,
            ),
            final(self).given@.len() == chunk_channels(final(self).resampler),
            forall|c: int|
                0 <= c < final(self).given@.len() ==> (#[trigger] final(self).given@[c]).len()
                    == chunk_frames_out(final(self).resampler),
            final(self).out_buf@ == interleave(
                final(self).given@,
                chunk_frames_out(final(self).resampler),
            ),
            final(self).out_buf@.len() == chunk_frames_out(final(self).resampler) * chunk_channels(
                final(self).resampler,
            ),
            chunk_channels(final(self).resampler) == chunk_channels(old(self).resampler),
            chunk_frames_in(final(self).resampler) == chunk_frames_in(old(self).resampler),
            chunk_frames_out(final(self).resampler) == chunk_frames_out(old(self).resampler),
    {
        proof {
            self.in_buf.lemma_full_planes();
            self.in_buf.lemma_interleaved_len();
            self.fed = Ghost(self.in_buf.interleaved());
        }
        let planes = fft_process(&mut self.resampler, self.in_buf.inner());
        self.in_buf.reset();
        assert(planes@[0]@.len() * planes@.len() <= usize::MAX);
        self.out_buf.fill_from_deinterleaved(&planes);
        proof {
            let given = Seq::new(planes@.len(), |c: int| planes@[c]@);
            self.given = Ghost(given);
            assert(self.out_buf@ == interleave(given, planes@[0]@.len()));
        }
    }

    /// Fills the chunk from the decoder and resamples it once it is full.
    fn next(&mut self, decoder: &mut Decoder) -> (r: Result<DecoderResult, DecoderError>)
        requires
            old(self).wf(),
            old(decoder)@.wf(),
        ensures
            final(self).wf(),
            final(decoder)@.wf(),
            final(decoder)@.same_setup(old(decoder)@),
            chunk_channels(final(self).resampler) == chunk_channels(old(self).resampler),
            chunk_frames_in(final(self).resampler) == chunk_frames_in(old(self).resampler),
            chunk_frames_out(final(self).resampler) == chunk_frames_out(old(self).resampler),
            !(r matches Err(DecoderError::Recoverable(_))),
            r matches Err(error) ==> error.while_reading(),
            old(decoder)@.sample_rate != 0 ==> final(decoder)@.sample_rate
                == old(decoder)@.sample_rate,
            old(decoder)@.finished ==> final(decoder)@.finished,
            r matches Ok(DecoderResult::Unfinished) ==> {
                &&& final(self).in_buf.count() == 0
                &&& final(self).fed@ == old(self).in_buf.interleaved() + final(self).drawn@
                &&& final(self).fed@.len() == chunk_frames_in(final(self).resampler)
                    * chunk_channels(final(self).resampler)
                &&& final(self).given@.len() == chunk_channels(final(self).resampler)
                &&& forall|c: int|
                    0 <= c < final(self).given@.len() ==> (#[trigger] final(self).given@[c]).len()
                        == chunk_frames_out(final(self).resampler)
                &&& final(self).out_buf@ == interleave(
                    final(self).given@,
                    chunk_frames_out(final(self).resampler),
                )
                &&& final(self).out_buf@.len() == chunk_frames_out(final(self).resampler)
                    * chunk_channels(final(self).resampler)
                &&& final(self).drawn@.len() <= unread(
                    old(decoder)@.current(),
                    old(self).written as nat,
                ).len() ==> {
                    &&& *final(decoder) == *old(decoder)
                    &&& final(self).written == old(self).written + final(self).drawn@.len()
                }
            },
            r matches Ok(DecoderResult::Finished) ==> {
                &&& !old(decoder)@.is_paused
                &&& final(decoder)@.finished
                &&& final(self).out_buf@ == old(self).out_buf@
                &&& final(self).fed == old(self).fed
                &&& final(self).given == old(self).given
                &&& final(self).in_buf.interleaved() == old(self).in_buf.interleaved()
                    + final(self).drawn@
                &&& old(self).in_buf.interleaved().is_prefix_of(final(self).in_buf.interleaved())
            },
            r is Ok ==> {
                &&& final(self).drawn@.is_prefix_of(
                    unread(old(decoder)@.current(), old(self).written as nat),
                ) || unread(old(decoder)@.current(), old(self).written as nat).is_prefix_of(
                    final(self).drawn@,
                )
                &&& final(self).drawn@.len() > unread(
                    old(decoder)@.current(),
                    old(self).written as nat,
                ).len() ==> {
                    &&& final(self).written <= final(decoder)@.current().len()
                    &&& final(self).written <= final(self).drawn@.len() - unread(
                        old(decoder)@.current(),
                        old(self).written as nat,
                    ).len()
                    &&& final(self).drawn@.subrange(
                        final(self).drawn@.len() - final(self).written,
                        final(self).drawn@.len() as int,
                    ) == final(decoder)@.current().subrange(0, final(self).written as int)
                }
            },
            !old(decoder)@.is_paused && old(decoder)@.finished ==> {
                &&& r is Ok
                &&& *final(decoder) == *old(decoder)
                &&& (r matches Ok(DecoderResult::Unfinished)) == (old(self).in_buf.count() + unread(
                    old(decoder)@.current(),
                    old(self).written as nat,
                ).len() >= chunk_frames_in(old(self).resampler) * chunk_channels(
                    old(self).resampler,
                ))
            },
    {
        let mut budget: u64 = PACKET_LIMIT;
        let ghost rest = unread(old(decoder)@.current(), old(self).written as nat);
        let ghost block = old(decoder)@.current();
        let ghost mut advanced = false;
        proof {
            self.in_buf.lemma_count_bound();
            self.drawn = Ghost(Seq::empty());
            assert(self.in_buf.interleaved() =~= old(self).in_buf.interleaved() + self.drawn@);
            if old(self).written <= block.len() {
                assert(self.drawn@ =~= block.subrange(
                    old(self).written as int,
                    self.written as int,
                ));
            }
        }
        loop
            invariant
                self.wf(),
                old(self).wf(),
                rest == unread(old(decoder)@.current(), old(self).written as nat),
                block == old(decoder)@.current(),
                old(decoder)@.wf(),
                decoder@.wf(),
                decoder@.same_setup(old(decoder)@),
                old(decoder)@.sample_rate != 0 ==> decoder@.sample_rate
                    == old(decoder)@.sample_rate,
                old(decoder)@.finished ==> decoder@.finished,
                self.out_buf@ == old(self).out_buf@,
                self.fed == old(self).fed,
                self.given == old(self).given,
                self.in_buf.interleaved() == old(self).in_buf.interleaved() + self.drawn@,
                self.in_buf.count() == old(self).in_buf.count() + self.drawn@.len(),
                chunk_channels(self.resampler) == chunk_channels(old(self).resampler),
                chunk_frames_in(self.resampler) == chunk_frames_in(old(self).resampler),
                chunk_frames_out(self.resampler) == chunk_frames_out(old(self).resampler),
                self.in_buf.count() <= self.in_buf.frames() * self.in_buf.channel_count(),
                !advanced ==> {
                    &&& *decoder == *old(decoder)
                    &&& budget == PACKET_LIMIT
                    &&& old(self).written <= block.len() ==> old(self).written <= self.written
                        <= block.len() && self.drawn@ == block.subrange(
                        old(self).written as int,
                        self.written as int,
                    )
                    &&& old(self).written > block.len() ==> self.written == old(self).written
                        && self.drawn@.len() == 0
                },
                advanced ==> {
                    &&& !old(decoder)@.finished || old(decoder)@.is_paused
                    &&& rest.is_prefix_of(self.drawn@)
                    &&& self.written <= decoder@.current().len()
                    &&& self.written <= self.drawn@.len() - rest.len()
                    &&& self.drawn@.subrange(
                        self.drawn@.len() - self.written,
                        self.drawn@.len() as int,
                    ) == decoder@.current().subrange(0, self.written as int)
                    &&& self.in_buf.full() ==> self.drawn@.len() > rest.len()
                },
            decreases
                    self.in_buf.frames() * self.in_buf.channel_count() - self.in_buf.count(),
                    budget,
        {
            let block_len = decoder.current().len();
            match fill_step(self.in_buf.is_full(), self.written, block_len) {
                FillStep::Resample => {
                    self.resample();
                    return Ok(DecoderResult::Unfinished);
                },
                FillStep::Advance => {
                    if budget == 0 {
                        return Err(
                            DecoderError::DecodeError(
                                crate::decoder::media::limit_reached(
                                    "the packet limit of one call was reached",
                                ),
                            ),
                        );
                    }
                    budget -= 1;
                    proof {
                        if !advanced && old(self).written <= block.len() {
                            assert(self.drawn@ =~= rest);
                        }
                        if !advanced && old(self).written > block.len() {
                            assert(self.drawn@ =~= rest);
                        }
                    }
                    match decoder.next() {
                        Ok(Some(_)) => {
                            self.written = 0;
                            proof {
                                advanced = true;
                                assert(self.drawn@.subrange(
                                    self.drawn@.len() as int,
                                    self.drawn@.len() as int,
                                ) =~= decoder@.current().subrange(0, 0));
                            }
                        },
                        Ok(None) => {
                            return Ok(DecoderResult::Finished);
                        },
                        Err(error) => {
                            return Err(error);
                        },
                    }
                },
                FillStep::Take => {
                    let current = decoder.current();
                    let part = vstd::slice::slice_subrange(current, self.written, block_len);
                    let ghost before = self.in_buf.interleaved();
                    let ghost drawn_before = self.drawn@;
                    let ghost written_before = self.written;
                    let pushed = self.in_buf.fill_from_slice(part);
                    self.written = self.written + pushed;
                    proof {
                        self.in_buf.lemma_count_bound();
                        let more = part@.subrange(0, pushed as int);
                        self.drawn = Ghost(drawn_before + more);
                        assert(self.in_buf.interleaved() =~= old(self).in_buf.interleaved()
                            + self.drawn@);
                        assert(more =~= decoder@.current().subrange(
                            written_before as int,
                            self.written as int,
                        ));
                        if !advanced {
                            assert(self.drawn@ =~= block.subrange(
                                old(self).written as int,
                                self.written as int,
                            ));
                        } else {
                            assert(self.drawn@.subrange(
                                self.drawn@.len() - self.written,
                                self.drawn@.len() as int,
                            ) =~= decoder@.current().subrange(0, self.written as int)) by {
                                assert(drawn_before.subrange(
                                    drawn_before.len() - written_before,
                                    drawn_before.len() as int,
                                ) == decoder@.current().subrange(0, written_before as int));
                            }
                        }
                    }
                },
            }
        }
    }

    /// Resamples what the chunk holds, filled up with silence, where it
    /// holds anything.
    fn flush(&mut self) -> (flushed: bool)
        requires
            old(self).wf(),
        ensures
            final(self).wf(),
            final(self).in_buf.count() == 0,
            final(self).in_buf.interleaved() == Seq::<i16>::empty(),
            final(self).written == old(self).written,
            final(self).drawn == old(self).drawn,
            flushed == (old(self).in_buf.count() > 0),
            !flushed ==> *final(self) == *old(self),
            flushed ==> {
                &&& final(self).fed@.len() == chunk_frames_in(final(self).resampler)
                    * chunk_channels(final(self).resampler)
                &&& final(self).fed@ == old(self).in_buf.interleaved() + Seq::new(
                    (chunk_frames_in(old(self).resampler) * chunk_channels(old(self).resampler)
                        - old(self).in_buf.count()) as nat,
                    |i: int| MID,
                )
                &&& final(self).given@.len() == chunk_channels(final(self).resampler)
                &&& forall|c: int|
                    0 <= c < final(self).given@.len() ==> (#[trigger] final(self).given@[c]).len()
                        == chunk_frames_out(final(self).resampler)
                &&& final(self).out_buf@ == interleave(
                    final(self).given@,
                    chunk_frames_out(final(self).resampler),
                )
                &&& final(self).out_buf@.len() == chunk_frames_out(final(self).resampler)
                    * chunk_channels(final(self).resampler)
            },
            chunk_channels(final(self).resampler) == chunk_channels(old(self).resampler),
            chunk_frames_in(final(self).resampler) == chunk_frames_in(old(self).resampler),
            chunk_frames_out(final(self).resampler) == chunk_frames_out(old(self).resampler),
    {
        if self.in_buf.is_empty() {
            proof {
                self.in_buf.lemma_interleaved_len();
            }
            false
        } else {
            self.in_buf.silence_remainder();
            self.resample();
            true
        }
    }
}

/// A resampled decoder as contracts see it.
pub struct ResampledView {
    /// Whether blocks are passed through as the decoder gives them.
    pub native: bool,
    pub in_sample_rate: usize,
    pub out_sample_rate: usize,
    pub channels: usize,
    pub chunk_size: usize,
    /// The block that the resampler last gave; empty while blocks are passed
    /// through.
    pub out_buf: Seq<i16>,
    /// The samples that wait in the chunk that is being filled; none while
    /// blocks are passed through.
    pub pending: Seq<i16>,
    /// The frames that the resampler takes at a time; none while blocks are
    /// passed through.
    pub frames_in: nat,
    /// The frames that the resampler gives at a time; none while blocks are
    /// passed through.
    pub frames_out: nat,
    /// How many samples of the decoder's current block were taken into the
    /// chunk; none while blocks are passed through.
    pub taken: nat,
    /// The samples of the decoder that the last call of `decode_next_frame`
    /// took into the chunk, in the order in which they came.
    pub drawn: Seq<i16>,
    /// The chunk that was last handed to the resampler, interleaved.
    pub fed: Seq<i16>,
    /// The planes that the resampler gave for the chunk that was last handed
    /// to it, one for every channel.
    pub given: Seq<Seq<i16>>,
}

impl ResampledView {
    /// Whether a resampler has to be made to meet a decoder of a rate: the
    /// rate is another than the output's, and there is no resampler for it
    /// yet.
    pub open spec fn must_make(self, decoder_rate: usize) -> bool {
        decoder_rate != self.out_sample_rate && (self.native || decoder_rate
            != self.in_sample_rate)
    }

    /// Whether no resampler can be made for a decoder of a rate: the chunk
    /// does not fit, there are no channels, or a rate is zero.
    pub open spec fn cannot_make(self, decoder_rate: usize) -> bool {
        ||| !chunk_fits(decoder_rate, self.out_sample_rate, self.chunk_size)
        ||| self.channels == 0
        ||| decoder_rate == 0
        ||| self.out_sample_rate == 0
    }

    /// The samples that a full chunk holds.
    pub open spec fn chunk_samples(self) -> nat {
        (self.frames_in * self.channels) as nat
    }

    /// Whether the block is the planes that the resampler gave, put
    /// together frame by frame.
    pub open spec fn gives_block(self) -> bool {
        &&& self.given.len() == self.channels
        &&& forall|c: int|
            0 <= c < self.given.len() ==> (#[trigger] self.given[c]).len() == self.frames_out
        &&& self.out_buf == interleave(self.given, self.frames_out)
        &&& self.out_buf.len() == self.frames_out * self.channels
    }

    /// The current block: the decoder's while blocks are passed through, the
    /// resampler's otherwise.
    pub open spec fn current(self, decoder: DecoderView) -> Seq<i16> {
        if self.native {
            decoder.current()
        } else {
            self.out_buf
        }
    }
}

/// Whole chunks keep the rate. Where the frames of the chunks are to each
/// other as the rates are, and `chunks` chunks were filled from `frames`
/// frames of the source, the last of them not wholly, then the frames that
/// come out are what the frames of the source come to at the rate that goes
/// out, and less than one chunk more.
pub proof fn lemma_chunks_keep_the_rate(resampled: ResampledView, frames: nat, chunks: nat)
    requires
        resampled.in_sample_rate > 0,
        resampled.out_sample_rate > 0,
        resampled.frames_in * resampled.out_sample_rate == resampled.frames_out
            * resampled.in_sample_rate,
        chunks > 0,
        (chunks - 1) * resampled.frames_in < frames <= chunks * resampled.frames_in,
    ensures
        frames * resampled.out_sample_rate <= chunks * resampled.frames_out
            * resampled.in_sample_rate,
        chunks * resampled.frames_out * resampled.in_sample_rate < frames
            * resampled.out_sample_rate + resampled.frames_out * resampled.in_sample_rate,
{
    let fi = resampled.frames_in as int;
    let fo = resampled.frames_out as int;
    let ri = resampled.in_sample_rate as int;
    let ro = resampled.out_sample_rate as int;
    let k = chunks as int;
    let n = frames as int;
    assert(k * fo * ri == k * fi * ro) by (nonlinear_arith)
        requires
            fi * ro == fo * ri,
    ;
    assert(n * ro <= k * fi * ro) by (nonlinear_arith)
        requires
            n <= k * fi,
            0 <= ro,
    ;
    assert(k * fi * ro < n * ro + fi * ro) by (nonlinear_arith)
        requires
            (k - 1) * fi < n,
            0 < ro,
    ;
}

/// While blocks are passed through, the current block is the decoder's,
/// sample for sample.
pub proof fn lemma_native_passes_through(resampled: ResampledView, decoder: DecoderView)
    requires
        resampled.native,
    ensures
        resampled.current(decoder) == decoder.current(),
{
}

/// A decoder's blocks at the rate of the output.
pub struct ResampledDecoder {
    decoder_inner: ResampledDecoderImpl,
    in_sample_rate: usize,
    out_sample_rate: usize,
    channels: usize,
    settings: ResamplerSettings,
}

impl View for ResampledDecoder {
    type V = ResampledView;

    closed spec fn view(&self) -> ResampledView {
        ResampledView {
            native: self.decoder_inner is Native,
            in_sample_rate: self.in_sample_rate,
            out_sample_rate: self.out_sample_rate,
            channels: self.channels,
            chunk_size: self.settings.chunk_size,
            out_buf: match self.decoder_inner {
                ResampledDecoderImpl::Resampled(inner) => inner.out_buf@,
                ResampledDecoderImpl::Native => Seq::empty(),
            },
            pending: match self.decoder_inner {
                ResampledDecoderImpl::Resampled(inner) => inner.in_buf.interleaved(),
                ResampledDecoderImpl::Native => Seq::empty(),
            },
            frames_in: match self.decoder_inner {
                ResampledDecoderImpl::Resampled(inner) => chunk_frames_in(inner.resampler),
                ResampledDecoderImpl::Native => 0,
            },
            frames_out: match self.decoder_inner {
                ResampledDecoderImpl::Resampled(inner) => chunk_frames_out(inner.resampler),
                ResampledDecoderImpl::Native => 0,
            },
            taken: match self.decoder_inner {
                ResampledDecoderImpl::Resampled(inner) => inner.written as nat,
                ResampledDecoderImpl::Native => 0,
            },
            drawn: match self.decoder_inner {
                ResampledDecoderImpl::Resampled(inner) => inner.drawn@,
                ResampledDecoderImpl::Native => Seq::empty(),
            },
            fed: match self.decoder_inner {
                ResampledDecoderImpl::Resampled(inner) => inner.fed@,
                ResampledDecoderImpl::Native => Seq::empty(),
            },
            given: match self.decoder_inner {
                ResampledDecoderImpl::Resampled(inner) => inner.given@,
                ResampledDecoderImpl::Native => Seq::empty(),
            },
        }
    }
}

impl ResampledDecoder {
    /// What holds of every resampled decoder: where it resamples, the chunk
    /// that is being filled is as the resampler takes it.
    pub closed spec fn wf(&self) -> bool {
        match self.decoder_inner {
            ResampledDecoderImpl::Resampled(inner) => {
                &&& inner.wf()
                &&& chunk_channels(inner.resampler) == self.channels
                &&& chunk_frames_in(inner.resampler) > 0
                &&& chunk_frames_out(inner.resampler) > 0
            },
            ResampledDecoderImpl::Native => true,
        }
    }

    /// While blocks are passed through, nothing waits to be resampled and
    /// nothing was.
    pub proof fn lemma_native_holds_nothing(&self)
        requires
            self@.native,
        ensures
            self@.pending.len() == 0,
            self@.out_buf.len() == 0,
            self@.drawn.len() == 0,
            self@.fed.len() == 0,
            self@.given.len() == 0,
            self@.taken == 0,
            self@.frames_in == 0,
            self@.frames_out == 0,
    {
    }

    /// A resampled decoder for an output, which passes blocks through until
    /// it meets a decoder of another rate.
    pub fn new(out_sample_rate: usize, channels: usize, settings: ResamplerSettings) -> (r: Self)
        ensures
            r.wf(),
            r@ == (ResampledView {
                native: true,
                in_sample_rate: out_sample_rate,
                out_sample_rate,
                channels,
                chunk_size: settings.chunk_size,
                out_buf: Seq::empty(),
                pending: Seq::empty(),
                frames_in: 0,
                frames_out: 0,
                taken: 0,
                drawn: Seq::empty(),
                fed: Seq::empty(),
                given: Seq::empty(),
            }),
    {
        ResampledDecoder {
            decoder_inner: ResampledDecoderImpl::Native,
            in_sample_rate: out_sample_rate,
            out_sample_rate,
            channels,
            settings,
        }
    }

    /// The rate of the decoder that was last met.
    pub fn in_sample_rate(&self) -> (rate: usize)
        ensures
            rate == self@.in_sample_rate,
    {
        self.in_sample_rate
    }

    /// The rate of the output.
    pub fn out_sample_rate(&self) -> (rate: usize)
        ensures
            rate == self@.out_sample_rate,
    {
        self.out_sample_rate
    }

    /// The channels that go out.
    pub fn channels(&self) -> (channels: usize)
        ensures
            channels == self@.channels,
    {
        self.channels
    }

    /// The current block.
    pub fn current<'a>(&'a self, decoder: &'a Decoder) -> (block: &'a [i16])
        requires
            decoder@.wf(),
        ensures
            block@ == self@.current(decoder@),
    {
        match &self.decoder_inner {
            ResampledDecoderImpl::Resampled(inner) => inner.out_buf.as_slice(),
            ResampledDecoderImpl::Native => decoder.current(),
        }
    }

    /// Resamples what waits in the chunk, filled up with silence, and
    /// returns the block; where nothing waits, nothing is resampled and the
    /// block is empty.
    pub fn flush(&mut self) -> (block: &[i16])
        requires
            old(self).wf(),
        ensures
            final(self).wf(),
            final(self)@.pending.len() == 0,
            final(self)@.native == old(self)@.native,
            final(self)@.in_sample_rate == old(self)@.in_sample_rate,
            final(self)@.out_sample_rate == old(self)@.out_sample_rate,
            final(self)@.channels == old(self)@.channels,
            final(self)@.chunk_size == old(self)@.chunk_size,
            final(self)@.frames_in == old(self)@.frames_in,
            final(self)@.frames_out == old(self)@.frames_out,
            final(self)@.taken == old(self)@.taken,
            final(self)@.drawn == old(self)@.drawn,
            old(self)@.pending.len() == 0 ==> block@.len() == 0 && *final(self) == *old(self),
            old(self)@.pending.len() > 0 ==> {
                &&& block@ == final(self)@.out_buf
                &&& block@.len() == final(self)@.frames_out * final(self)@.channels
                &&& final(self)@.fed == old(self)@.pending + Seq::new(
                    (old(self)@.chunk_samples() - old(self)@.pending.len()) as nat,
                    |i: int| MID,
                )
                &&& final(self)@.gives_block()
            },
    {
        match &mut self.decoder_inner {
            ResampledDecoderImpl::Resampled(inner) => {
                proof {
                    inner.in_buf.lemma_interleaved_len();
                }
                let flushed = inner.flush();
                proof {
                    inner.in_buf.lemma_interleaved_len();
                }
                if flushed {
                    inner.out_buf.as_slice()
                } else {
                    let empty: &[i16] = &[];
                    empty
                }
            },
            ResampledDecoderImpl::Native => {
                let empty: &[i16] = &[];
                empty
            },
        }
    }

    /// Advances by one block: the decoder's next where blocks are passed
    /// through, the resampler's next otherwise, for which the decoder is
    /// read until a chunk is full. `Finished` says that the decoder has
    /// ended; what then waits in the chunk, which is what waited before and
    /// what was read since, is left for `flush`.
    ///
    /// The chunk takes the decoder's samples in their order: first what was
    /// left to take of the current block, then the blocks that follow, the
    /// last as far as the chunk has room. The block that comes of a full
    /// chunk is the planes that the resampler gave for it, put together
    /// frame by frame.
    pub fn decode_next_frame(
        &mut self,
        decoder: &mut Decoder,
    ) -> (r: Result<DecoderResult, DecoderError>)
        requires
            old(self).wf(),
            old(decoder)@.wf(),
        ensures
            final(self).wf(),
            final(decoder)@.wf(),
            final(decoder)@.same_setup(old(decoder)@),
            final(self)@.native == old(self)@.native,
            final(self)@.in_sample_rate == old(self)@.in_sample_rate,
            final(self)@.out_sample_rate == old(self)@.out_sample_rate,
            final(self)@.channels == old(self)@.channels,
            final(self)@.chunk_size == old(self)@.chunk_size,
            final(self)@.frames_in == old(self)@.frames_in,
            final(self)@.frames_out == old(self)@.frames_out,
            !(r matches Err(DecoderError::Recoverable(_))),
            r matches Err(error) ==> error.while_reading(),
            old(decoder)@.sample_rate != 0 ==> final(decoder)@.sample_rate
                == old(decoder)@.sample_rate,
            old(decoder)@.finished ==> final(decoder)@.finished,
            old(self)@.native ==> *final(self) == *old(self),
            old(self)@.native && old(decoder)@.is_paused ==> {
                &&& r matches Ok(DecoderResult::Unfinished)
                &&& final(decoder)@ == old(decoder)@.silenced()
                &&& final(decoder).same_source(old(decoder))
            },
            !old(decoder)@.is_paused && old(decoder)@.finished ==> {
                &&& r is Ok
                &&& *final(decoder) == *old(decoder)
                &&& if old(self)@.native {
                    r matches Ok(DecoderResult::Finished)
                } else {
                    (r matches Ok(DecoderResult::Unfinished)) == (old(self)@.pending.len() + unread(
                        old(decoder)@.current(),
                        old(self)@.taken,
                    ).len() >= old(self)@.chunk_samples())
                }
            },
            r matches Ok(DecoderResult::Unfinished) ==> !old(self)@.native
                || old(decoder)@.is_paused || {
                &&& !final(decoder)@.finished
                &&& final(decoder)@.used_ts.len() > 0
                &&& final(decoder)@.timestamp == final(decoder)@.used_ts.last()
                &&& final(decoder)@.current() == final(decoder)@.mixed_block()
            },
            r matches Ok(DecoderResult::Unfinished) ==> !old(self)@.native ==> {
                &&& final(self)@.pending.len() == 0
                &&& final(self)@.fed == old(self)@.pending + final(self)@.drawn
                &&& final(self)@.fed.len() == final(self)@.chunk_samples()
                &&& final(self)@.gives_block()
                &&& final(self)@.drawn.len() <= unread(
                    old(decoder)@.current(),
                    old(self)@.taken,
                ).len() ==> {
                    &&& *final(decoder) == *old(decoder)
                    &&& final(self)@.taken == old(self)@.taken + final(self)@.drawn.len()
                }
            },
            r matches Ok(DecoderResult::Finished) ==> {
                &&& !old(decoder)@.is_paused
                &&& final(decoder)@.finished
                &&& final(self)@.out_buf == old(self)@.out_buf
                &&& final(self)@.fed == old(self)@.fed
                &&& final(self)@.given == old(self)@.given
                &&& final(self)@.pending == old(self)@.pending + final(self)@.drawn
                &&& old(self)@.pending.is_prefix_of(final(self)@.pending)
            },
            !old(self)@.native ==> r is Ok ==> {
                &&& final(self)@.drawn.is_prefix_of(
                    unread(old(decoder)@.current(), old(self)@.taken),
                ) || unread(old(decoder)@.current(), old(self)@.taken).is_prefix_of(
                    final(self)@.drawn,
                )
                &&& final(self)@.drawn.len() > unread(
                    old(decoder)@.current(),
                    old(self)@.taken,
                ).len() ==> {
                    &&& final(self)@.taken <= final(decoder)@.current().len()
                    &&& final(self)@.taken <= final(self)@.drawn.len() - unread(
                        old(decoder)@.current(),
                        old(self)@.taken,
                    ).len()
                    &&& final(self)@.drawn.subrange(
                        final(self)@.drawn.len() - final(self)@.taken,
                        final(self)@.drawn.len() as int,
                    ) == final(decoder)@.current().subrange(0, final(self)@.taken as int)
                }
            },
    {
        match &mut self.decoder_inner {
            ResampledDecoderImpl::Resampled(inner) => {
                proof {
                    inner.in_buf.lemma_interleaved_len();
                }
                let r = inner.next(decoder);
                proof {
                    inner.in_buf.lemma_interleaved_len();
                }
                r
            },
            ResampledDecoderImpl::Native => match decoder.next() {
                Ok(Some(_)) => Ok(DecoderResult::Unfinished),
                Ok(None) => Ok(DecoderResult::Finished),
                Err(error) => Err(error),
            },
        }
    }

    /// Makes a resampler from the rate of the decoder to the rate of the
    /// output and reads the first block through it.
    ///
    /// It is refused where a rate is zero or the chunks cannot be counted.
    fn initialize_resampler(&mut self, decoder: &mut Decoder) -> (r: Result<(), DecoderError>)
        requires
            old(self).wf(),
            old(decoder)@.wf(),
        ensures
            final(self).wf(),
            final(decoder)@.wf(),
            final(decoder)@.same_setup(old(decoder)@),
            final(self)@.in_sample_rate == old(self)@.in_sample_rate,
            final(self)@.out_sample_rate == old(self)@.out_sample_rate,
            final(self)@.channels == old(self)@.channels,
            final(self)@.chunk_size == old(self)@.chunk_size,
            !(r matches Err(DecoderError::Recoverable(_))),
            r matches Err(error) ==> error.while_reading(),
            r is Ok ==> !final(self)@.native,
            r is Err ==> final(self)@.native == old(self)@.native,
            r is Ok ==> final(self)@.frames_in > 0 && final(self)@.frames_out > 0,
            r is Ok ==> final(self)@.frames_in * final(self)@.out_sample_rate
                == final(self)@.frames_out * final(self)@.in_sample_rate,
            r is Ok ==> final(self)@.out_buf.len()
                == final(self)@.frames_out * final(self)@.channels || final(decoder)@.finished,
            old(self)@.cannot_make(old(self)@.in_sample_rate) ==> {
                &&& r matches Err(error) && error is UnsupportedFormat
                &&& *final(decoder) == *old(decoder)
                &&& final(self)@ == old(self)@
            },
            old(decoder)@.sample_rate != 0 ==> final(decoder)@.sample_rate
                == old(decoder)@.sample_rate,
            old(decoder)@.finished ==> final(decoder)@.finished,
            !old(decoder)@.is_paused && old(decoder)@.finished ==> *final(decoder) == *old(decoder),
    {
        let chunk_size = self.settings.chunk_size;
        let fits = chunk_is_fit(self.in_sample_rate, self.out_sample_rate, chunk_size);
        if !fits || self.channels == 0 {
            return Err(
                DecoderError::UnsupportedFormat(
                    "No resampler can be made for these rates and channels".to_owned(),
                ),
            );
        }
        assert(chunk_fits(self.in_sample_rate, self.out_sample_rate, chunk_size));
        let resampler = match fft_new(
            self.in_sample_rate,
            self.out_sample_rate,
            chunk_size,
            self.channels,
        ) {
            Ok(resampler) => resampler,
            Err(_) => {
                return Err(
                    DecoderError::UnsupportedFormat(
                        "No resampler can be made for a sample rate of zero".to_owned(),
                    ),
                );
            },
        };
        let frames_in = fft_frames_in(&resampler);
        let frames_out = fft_frames_out(&resampler);
        if frames_in.checked_mul(self.channels).is_none() || frames_out.checked_mul(
            self.channels,
        ).is_none() {
            return Err(
                DecoderError::UnsupportedFormat(
                    "The chunks of the resampler hold more samples than fit".to_owned(),
                ),
            );
        }
        let mut inner = ResampleDecoderInner {
            written: 0,
            in_buf: ChannelBuffer::new(frames_in, self.channels),
            resampler,
            out_buf: Vec::new(),
            drawn: Ghost(Seq::empty()),
            fed: Ghost(Seq::empty()),
            given: Ghost(Seq::empty()),
        };
        match inner.next(decoder) {
            Ok(_) => {
                self.decoder_inner = ResampledDecoderImpl::Resampled(inner);
                Ok(())
            },
            Err(error) => Err(error),
        }
    }

    /// Meets a decoder: takes its rate as the rate that comes in, and sets
    /// the resampler up for it.
    ///
    /// Where the rate is the rate of the output, blocks are passed through.
    /// Where it is another, a resampler is made, unless there is one for
    /// that rate already; the first block is read through a resampler that
    /// was made.
    pub fn initialize(&mut self, decoder: &mut Decoder) -> (r: Result<(), DecoderError>)
        requires
            old(self).wf(),
            old(decoder)@.wf(),
        ensures
            final(self).wf(),
            final(decoder)@.wf(),
            final(decoder)@.same_setup(old(decoder)@),
            final(self)@.in_sample_rate == old(decoder)@.sample_rate,
            final(self)@.out_sample_rate == old(self)@.out_sample_rate,
            final(self)@.channels == old(self)@.channels,
            final(self)@.chunk_size == old(self)@.chunk_size,
            !(r matches Err(DecoderError::Recoverable(_))),
            r matches Err(error) ==> error.while_reading(),
            old(decoder)@.sample_rate == old(self)@.out_sample_rate ==> {
                &&& r is Ok
                &&& final(self)@.native
                &&& *final(decoder) == *old(decoder)
            },
            r is Ok && old(decoder)@.sample_rate != old(self)@.out_sample_rate ==> {
                &&& !final(self)@.native
                &&& final(self)@.frames_in > 0
                &&& final(self)@.frames_out > 0
            },
            r is Ok && old(self)@.must_make(old(decoder)@.sample_rate)
                ==> final(self)@.out_buf.len() == final(self)@.frames_out * final(self)@.channels
                    || final(decoder)@.finished,
            r is Ok && old(self)@.must_make(old(decoder)@.sample_rate)
                ==> final(self)@.frames_in * final(self)@.out_sample_rate
                    == final(self)@.frames_out * final(self)@.in_sample_rate,
            !old(self)@.native && old(decoder)@.sample_rate == old(self)@.in_sample_rate
                && old(decoder)@.sample_rate != old(self)@.out_sample_rate ==> {
                &&& r is Ok
                &&& final(self)@ == (ResampledView { taken: 0, ..old(self)@ })
                &&& *final(decoder) == *old(decoder)
            },
            old(self)@.must_make(old(decoder)@.sample_rate) && old(self)@.cannot_make(
                old(decoder)@.sample_rate,
            ) ==> {
                &&& r matches Err(error) && error is UnsupportedFormat
                &&& *final(decoder) == *old(decoder)
                &&& final(self)@ == (ResampledView {
                    in_sample_rate: old(decoder)@.sample_rate,
                    ..old(self)@
                })
            },
            old(decoder)@.sample_rate != 0 ==> final(decoder)@.sample_rate
                == old(decoder)@.sample_rate,
            old(decoder)@.finished ==> final(decoder)@.finished,
            !old(decoder)@.is_paused && old(decoder)@.finished ==> *final(decoder) == *old(decoder),
            old(self)@.native && old(decoder)@.sample_rate == old(self)@.out_sample_rate
                ==> final(self)@ == (ResampledView {
                in_sample_rate: old(decoder)@.sample_rate,
                ..old(self)@
            }),
    {
        let current_in_rate = self.in_sample_rate;
        self.in_sample_rate = decoder.sample_rate();
        if self.in_sample_rate == self.out_sample_rate {
            match &self.decoder_inner {
                ResampledDecoderImpl::Native => {},
                ResampledDecoderImpl::Resampled(_) => {
                    self.decoder_inner = ResampledDecoderImpl::Native;
                },
            }
            return Ok(());
        }
        let keep = match &mut self.decoder_inner {
            ResampledDecoderImpl::Native => false,
            ResampledDecoderImpl::Resampled(inner) => {
                if self.in_sample_rate == current_in_rate {
                    inner.written = 0;
                    true
                } else {
                    false
                }
            },
        };
        if keep {
            Ok(())
        } else {
            self.initialize_resampler(decoder)
        }
    }
}

} // verus!
