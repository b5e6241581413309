//! A buffer that takes interleaved samples apart into channels.

use crate::sample::MID;
use vstd::prelude::*;

verus! {

/// A buffer of `channels` planes that hold up to `capacity` samples each.
///
/// Samples are pushed in interleaved order: the first goes to the first
/// plane, the next to the second, and so on round the planes.
pub struct ChannelBuffer {
    inner: Vec<Vec<i16>>,
    capacity: usize,
    channels: usize,
    current_chan: usize,
}

impl ChannelBuffer {
    /// The planes.
    pub closed spec fn planes(&self) -> Seq<Seq<i16>> {
        Seq::new(self.inner@.len(), |c: int| self.inner@[c]@)
    }

    /// How many samples each plane holds at most.
    pub closed spec fn frames(&self) -> nat {
        self.capacity as nat
    }

    /// How many planes there are.
    pub closed spec fn channel_count(&self) -> nat {
        self.channels as nat
    }

    /// How many samples were pushed since the buffer was last empty.
    pub closed spec fn count(&self) -> nat {
        (self.inner@[self.channels - 1]@.len() * self.channels + self.current_chan) as nat
    }

    /// What holds of every buffer: there is a plane, every plane that the
    /// next sample is past holds one sample more than the others, and none
    /// holds more than it may.
    pub closed spec fn wf(&self) -> bool {
        &&& self.channels > 0
        &&& self.inner@.len() == self.channels
        &&& self.current_chan < self.channels
        &&& self.capacity * self.channels <= usize::MAX
        &&& self.inner@[self.channels - 1]@.len() <= self.capacity
        &&& (self.inner@[self.channels - 1]@.len() == self.capacity ==> self.current_chan == 0)
        &&& forall|c: int|
            0 <= c < self.channels ==> (#[trigger] self.inner@[c])@.len()
                == self.inner@[self.channels
                - 1]@.len() + if c < self.current_chan {
                1int
            } else {
                0int
            }
    }

    /// The samples that were pushed, in the order in which they came.
    pub closed spec fn interleaved(&self) -> Seq<i16> {
        Seq::new(
            self.count(),
            |i: int| self.inner@[i % (self.channels as int)]@[i / (self.channels as int)],
        )
    }

    /// Whether every plane holds as many samples as it may.
    pub open spec fn full(&self) -> bool {
        self.count() == self.frames() * self.channel_count()
    }

    /// An empty buffer.
    pub fn new(capacity: usize, channels: usize) -> (buffer: ChannelBuffer)
        requires
            channels > 0,
            capacity * channels <= usize::MAX,
        ensures
            buffer.wf(),
            buffer.frames() == capacity,
            buffer.channel_count() == channels,
            buffer.count() == 0,
            buffer.interleaved() == Seq::<i16>::empty(),
    {
        let mut inner: Vec<Vec<i16>> = Vec::new();
        let mut c: usize = 0;
        while c < channels
            invariant
                c <= channels,
                inner@.len() == c,
                forall|k: int| 0 <= k < c ==> (#[trigger] inner@[k])@.len() == 0,
            decreases channels - c,
        {
            inner.push(Vec::new());
            c += 1;
        }
        let buffer = ChannelBuffer { inner, capacity, channels, current_chan: 0 };
        assert(buffer.count() == 0) by (nonlinear_arith)
            requires
                buffer.count() == (0 * channels + 0) as nat,
        ;
        assert(buffer.interleaved() =~= Seq::<i16>::empty());
        buffer
    }

    /// How many samples the last plane holds.
    fn len(&self) -> (n: usize)
        requires
            self.wf(),
        ensures
            n == self.inner@[self.channels - 1]@.len(),
            n <= self.capacity,
    {
        self.inner[self.channels - 1].len()
    }

    /// How many whole frames the buffer holds.
    pub fn position(&self) -> (n: usize)
        requires
            self.wf(),
        ensures
            n == self.count() / self.channel_count(),
    {
        let n = self.len();
        proof {
            lemma_split(
                self.count() as int,
                self.channels as int,
                n as int,
                self.current_chan as int,
            );
        }
        n
    }

    /// Whether the buffer holds nothing.
    pub fn is_empty(&self) -> (b: bool)
        requires
            self.wf(),
        ensures
            b == (self.count() == 0),
    {
        let n = self.len();
        assert(n > 0 ==> n * self.channels > 0) by (nonlinear_arith)
            requires
                self.channels > 0,
        ;
        assert(n == 0 ==> n * self.channels == 0) by (nonlinear_arith);
        n == 0 && self.current_chan == 0
    }

    /// Whether every plane holds as many samples as it may.
    pub fn is_full(&self) -> (b: bool)
        requires
            self.wf(),
        ensures
            b == self.full(),
    {
        let n = self.len();
        proof {
            if n < self.capacity {
                assert(n * self.channels + self.current_chan < self.capacity * self.channels)
                    by (nonlinear_arith)
                    requires
                        n < self.capacity,
                        self.current_chan < self.channels,
                ;
            }
        }
        n == self.capacity
    }

    /// Empties the buffer.
    pub fn reset(&mut self)
        requires
            old(self).wf(),
        ensures
            final(self).wf(),
            final(self).frames() == old(self).frames(),
            final(self).channel_count() == old(self).channel_count(),
            final(self).count() == 0,
            final(self).interleaved() == Seq::<i16>::empty(),
    {
        let mut c: usize = 0;
        while c < self.channels
            invariant
                c <= self.channels,
                self.channels == old(self).channels,
                self.capacity == old(self).capacity,
                self.channels > 0,
                self.capacity * self.channels <= usize::MAX,
                self.inner@.len() == self.channels,
                forall|k: int| 0 <= k < c ==> (#[trigger] self.inner@[k])@.len() == 0,
            decreases self.channels - c,
        {
            self.inner[c].clear();
            c += 1;
        }
        self.current_chan = 0;
        assert(self.count() == 0) by (nonlinear_arith)
            requires
                self.count() == (0 * self.channels + 0) as nat,
        ;
        assert(self.interleaved() =~= Seq::<i16>::empty());
    }

    /// The planes.
    pub fn inner(&self) -> (planes: &Vec<Vec<i16>>)
        ensures
            planes@.len() == self.planes().len(),
            forall|c: int| 0 <= c < planes@.len() ==> (#[trigger] planes@[c])@ == self.planes()[c],
    {
        &self.inner
    }

    /// Pushes one sample.
    fn push(&mut self, sample: i16)
        requires
            old(self).wf(),
            !old(self).full(),
        ensures
            final(self).wf(),
            final(self).frames() == old(self).frames(),
            final(self).channel_count() == old(self).channel_count(),
            final(self).count() == old(self).count() + 1,
            final(self).interleaved() == old(self).interleaved().push(sample),
    {
        let ghost before = *self;
        let ghost last = self.inner@[self.channels - 1]@.len();
        let ghost cc = self.current_chan as int;
        let ghost ch = self.channels as int;
        proof {
            if last == self.capacity {
                assert(self.count() == self.capacity * self.channels);
            }
            assert(last < self.capacity);
        }
        let chan = self.current_chan;
        self.inner[chan].push(sample);
        self.current_chan = if chan + 1 == self.channels {
            0
        } else {
            chan + 1
        };
        proof {
            let new_last = self.inner@[self.channels - 1]@.len();
            assert(forall|c: int|
                0 <= c < ch && c != cc ==> (#[trigger] self.inner@[c]) == before.inner@[c]);
            assert(self.inner@[cc]@ == before.inner@[cc]@.push(sample));
            if cc + 1 == ch {
                assert(new_last == last + 1);
                assert((last + 1) * ch + 0 == last * ch + cc + 1) by (nonlinear_arith)
                    requires
                        cc + 1 == ch,
                ;
            } else {
                assert(new_last == last);
            }
            assert(self.count() == before.count() + 1);
            assert(new_last * ch <= self.capacity * ch) by (nonlinear_arith)
                requires
                    new_last <= self.capacity,
                    ch > 0,
            ;
            let n = before.count() as int;
            lemma_split(n, ch, last as int, cc);
            assert forall|i: int| 0 <= i < self.count() implies #[trigger] self.interleaved()[i]
                == before.interleaved().push(sample)[i] by {
                if i < n {
                    let c = i % ch;
                    let f = i / ch;
                    lemma_position(i, ch);
                    if c == cc {
                        lemma_below(i, n, ch, last as int, cc);
                        assert(f < before.inner@[cc]@.len());
                    }
                } else {
                    assert(i == n);
                }
            }
            assert(self.interleaved() =~= before.interleaved().push(sample));
        }
    }

    /// Fills what is left of the buffer with silence.
    pub fn silence_remainder(&mut self)
        requires
            old(self).wf(),
        ensures
            final(self).wf(),
            final(self).full(),
            final(self).frames() == old(self).frames(),
            final(self).channel_count() == old(self).channel_count(),
            final(self).interleaved() == old(self).interleaved() + Seq::new(
                (final(self).count() - old(self).count()) as nat,
                |i: int| MID,
            ),
    {
        proof {
            self.lemma_count_bound();
        }
        assert(self.interleaved() =~= old(self).interleaved() + Seq::new(0, |i: int| MID));
        while !self.is_full()
            invariant
                self.wf(),
                self.frames() == old(self).frames(),
                self.channel_count() == old(self).channel_count(),
                self.count() >= old(self).count(),
                self.count() <= self.frames() * self.channel_count(),
                self.interleaved() == old(self).interleaved() + Seq::new(
                    (self.count() - old(self).count()) as nat,
                    |i: int| MID,
                ),
            decreases self.frames() * self.channel_count() - self.count(),
        {
            let ghost before = self.interleaved();
            let ghost n = self.count();
            self.push(MID);
            assert(self.interleaved() =~= old(self).interleaved() + Seq::new(
                (self.count() - old(self).count()) as nat,
                |i: int| MID,
            ));
            proof {
                self.lemma_count_bound();
            }
        }
        proof {
            self.lemma_count_bound();
        }
    }

    /// Pushes samples from the front of `data` until the buffer is full or
    /// `data` is used up, and returns how many were pushed.
    pub fn fill_from_slice(&mut self, data: &[i16]) -> (pushed: usize)
        requires
            old(self).wf(),
        ensures
            final(self).wf(),
            final(self).frames() == old(self).frames(),
            final(self).channel_count() == old(self).channel_count(),
            pushed <= data@.len(),
            final(self).count() == old(self).count() + pushed,
            final(self).interleaved() == old(self).interleaved() + data@.subrange(0, pushed as int),
            pushed < data@.len() ==> final(self).full(),
    {
        let mut i: usize = 0;
        proof {
            self.lemma_count_bound();
        }
        assert(self.interleaved() =~= old(self).interleaved() + data@.subrange(0, 0));
        while !self.is_full() && i < data.len()
            invariant
                self.wf(),
                self.frames() == old(self).frames(),
                self.channel_count() == old(self).channel_count(),
                i <= data@.len(),
                self.count() == old(self).count() + i,
                self.count() <= self.frames() * self.channel_count(),
                self.interleaved() == old(self).interleaved() + data@.subrange(0, i as int),
            decreases data@.len() - i,
        {
            self.push(data[i]);
            assert(self.interleaved() =~= old(self).interleaved() + data@.subrange(0, i + 1));
            i += 1;
            proof {
                self.lemma_count_bound();
            }
        }
        i
    }

    /// The samples that were pushed are as many as were counted.
    pub proof fn lemma_interleaved_len(&self)
        ensures
            self.interleaved().len() == self.count(),
    {
    }

    /// No buffer holds more than its planes have room for.
    pub proof fn lemma_count_bound(&self)
        requires
            self.wf(),
        ensures
            self.count() <= self.frames() * self.channel_count(),
    {
        let last = self.inner@[self.channels - 1]@.len();
        if last < self.capacity {
            assert(last * self.channels + self.current_chan <= self.capacity * self.channels)
                by (nonlinear_arith)
                requires
                    last < self.capacity,
                    self.current_chan < self.channels,
            ;
        }
    }

    /// In a full buffer every plane holds as many samples as it may, and
    /// plane `c` holds at `f` the sample that was pushed as number
    /// `f * channels + c`.
    pub proof fn lemma_full_planes(&self)
        requires
            self.wf(),
            self.full(),
        ensures
            self.planes().len() == self.channel_count(),
            forall|c: int|
                0 <= c < self.channel_count() ==> (#[trigger] self.planes()[c]).len()
                    == self.frames(),
            forall|c: int, f: int|
                0 <= c < self.channel_count() && 0 <= f < self.frames() ==> (
                #[trigger] self.planes()[c][f]) == self.interleaved()[f * self.channel_count() + c],
    {
        let last = self.inner@[self.channels - 1]@.len();
        let ch = self.channels as int;
        if last < self.capacity {
            assert(last * self.channels + self.current_chan < self.capacity * self.channels)
                by (nonlinear_arith)
                requires
                    last < self.capacity,
                    self.current_chan < self.channels,
            ;
        }
        assert(last == self.capacity);
        assert forall|c: int, f: int|
            0 <= c < self.channel_count() && 0 <= f < self.frames() implies (
        #[trigger] self.planes()[c][f]) == self.interleaved()[f * self.channel_count() + c] by {
            let i = f * ch + c;
            lemma_split(i, ch, f, c);
            assert(i < self.capacity * ch) by (nonlinear_arith)
                requires
                    i == f * ch + c,
                    f < self.capacity,
                    0 <= c < ch,
            ;
        }
    }
}

/// A number that is `f` rows of `ch` and `c` more, with `c` less than a row,
/// has quotient `f` and remainder `c`.
pub proof fn lemma_split(i: int, ch: int, f: int, c: int)
    requires
        ch > 0,
        0 <= c < ch,
        0 <= f,
        i == f * ch + c,
    ensures
        i / ch == f,
        i % ch == c,
{
    vstd::arithmetic::div_mod::lemma_fundamental_div_mod_converse(i, ch, f, c);
}

/// A number is its quotient's rows and its remainder.
pub proof fn lemma_position(i: int, ch: int)
    requires
        ch > 0,
        0 <= i,
    ensures
        0 <= i % ch < ch,
        0 <= i / ch,
        i == (i / ch) * ch + i % ch,
{
    vstd::arithmetic::div_mod::lemma_fundamental_div_mod(i, ch);
    assert(0 <= i / ch) by (nonlinear_arith)
        requires
            ch > 0,
            0 <= i,
    ;
    assert((i / ch) * ch == ch * (i / ch)) by (nonlinear_arith);
}

/// Among the numbers below `last` rows and `cc` more, one with remainder
/// `cc` has a quotient below `last`.
pub proof fn lemma_below(i: int, n: int, ch: int, last: int, cc: int)
    requires
        ch > 0,
        0 <= cc < ch,
        0 <= last,
        n == last * ch + cc,
        0 <= i < n,
        i % ch == cc,
    ensures
        i / ch < last,
{
    lemma_position(i, ch);
    let f = i / ch;
    if f >= last {
        assert(f * ch >= last * ch) by (nonlinear_arith)
            requires
                f >= last,
                ch > 0,
        ;
    }
}

} // verus!
