//! Putting planes back together into interleaved samples.

use vstd::prelude::*;

verus! {

/// The interleaved samples of the first `frames` samples of every plane:
/// frame after frame, each with one sample of every plane.
pub open spec fn interleave<T>(planes: Seq<Seq<T>>, frames: nat) -> Seq<T> {
    Seq::new(
        frames * planes.len(),
        |i: int| planes[i % (planes.len() as int)][i / (planes.len() as int)],
    )
}

pub trait VecExt<T>: View<V = Seq<T>> {
    /// Replaces what the vector holds by the interleaved samples of the
    /// planes. The first plane says how many frames there are; no plane may
    /// be shorter.
    fn fill_from_deinterleaved(&mut self, channels: &Vec<Vec<T>>)
        requires
            channels@.len() > 0,
            forall|c: int|
                0 <= c < channels@.len() ==> (#[trigger] channels@[c])@.len()
                    >= channels@[0]@.len(),
            channels@[0]@.len() * channels@.len() <= usize::MAX,
        ensures
            final(self)@ == interleave(
                Seq::new(channels@.len(), |c: int| channels@[c]@),
                channels@[0]@.len(),
            ),
    ;
}

impl<T: Copy> VecExt<T> for Vec<T> {
    fn fill_from_deinterleaved(&mut self, deinterleaved: &Vec<Vec<T>>) {
        let out_len = deinterleaved[0].len();
        let count = deinterleaved.len();
        let ghost planes = Seq::new(deinterleaved@.len(), |c: int| deinterleaved@[c]@);
        self.clear();
        let mut i: usize = 0;
        while i < out_len
            invariant
                i <= out_len,
                count == deinterleaved@.len(),
                count > 0,
                out_len == deinterleaved@[0]@.len(),
                out_len * count <= usize::MAX,
                planes == Seq::new(deinterleaved@.len(), |c: int| deinterleaved@[c]@),
                forall|c: int|
                    0 <= c < deinterleaved@.len() ==> (#[trigger] deinterleaved@[c])@.len()
                        >= out_len,
                self@ == interleave(planes, i as nat),
            decreases out_len - i,
        {
            let mut c: usize = 0;
            assert(i * count + count <= out_len * count) by (nonlinear_arith)
                requires
                    i < out_len,
            ;
            while c < count
                invariant
                    c <= count,
                    i < out_len,
                    count == deinterleaved@.len(),
                    count > 0,
                    out_len == deinterleaved@[0]@.len(),
                    planes == Seq::new(deinterleaved@.len(), |c: int| deinterleaved@[c]@),
                    forall|k: int|
                        0 <= k < deinterleaved@.len() ==> (#[trigger] deinterleaved@[k])@.len()
                            >= out_len,
                    self@.len() == i * count + c,
                    forall|k: int|
                        0 <= k < i * count + c ==> #[trigger] self@[k] == planes[k % (
                        count as int)][k / (count as int)],
                decreases count - c,
            {
                proof {
                    crate::decoder::channel_buffer::lemma_split(
                        i * count + c,
                        count as int,
                        i as int,
                        c as int,
                    );
                }
                self.push(deinterleaved[c][i]);
                c += 1;
            }
            assert((i + 1) * count == i * count + count) by (nonlinear_arith);
            assert(self@ =~= interleave(planes, (i + 1) as nat));
            i += 1;
        }
    }
}

} // verus!
