//! The window of recent frame times: the newest samples, at most a fixed
//! number of them, oldest first.

use vstd::prelude::*;
use std::collections::VecDeque;

verus! {

/// How many frame times the window keeps.
pub const FRAME_HISTORY_LEN: usize = 1000;

/// The last `n` items of `s` (all of them if there are fewer).
pub open spec fn keep_last<T>(s: Seq<T>, n: nat) -> Seq<T> {
    if s.len() <= n {
        s
    } else {
        s.subrange(s.len() - n, s.len() as int)
    }
}

/// The window after pushing `samples`, first to last, into an empty one.
pub open spec fn replay<T>(samples: Seq<T>) -> Seq<T>
    decreases samples.len(),
{
    if samples.len() == 0 {
        Seq::empty()
    } else {
        keep_last(replay(samples.drop_last()).push(samples.last()), FRAME_HISTORY_LEN as nat)
    }
}

/// Recent samples, oldest first, never more than `FRAME_HISTORY_LEN`.
pub struct FrameHistory<T> {
    samples: VecDeque<T>,
}

impl<T> View for FrameHistory<T> {
    type V = Seq<T>;

    closed spec fn view(&self) -> Seq<T> {
        self.samples@
    }
}

impl<T> FrameHistory<T> {
    #[verifier::type_invariant]
    spec fn bounded(self) -> bool {
        self.samples@.len() <= FRAME_HISTORY_LEN
    }

    /// An empty window.
    pub fn new() -> (h: FrameHistory<T>)
        ensures
            h@ == Seq::<T>::empty(),
    {
        FrameHistory { samples: VecDeque::with_capacity(FRAME_HISTORY_LEN + 1) }
    }

    /// Appends a sample, dropping the oldest one when the window is full.
    pub fn push(&mut self, sample: T)
        ensures
            final(self)@ == keep_last(old(self)@.push(sample), FRAME_HISTORY_LEN as nat),
            old(self)@.len() < FRAME_HISTORY_LEN ==> final(self)@ == old(self)@.push(sample),
            old(self)@.len() == FRAME_HISTORY_LEN ==> final(self)@ == old(self)@.drop_first().push(sample),
    {
        proof { use_type_invariant(&*self); }
        let mut samples = VecDeque::new();
        std::mem::swap(&mut samples, &mut self.samples);
        samples.push_back(sample);
        if samples.len() > FRAME_HISTORY_LEN {
            let _ = samples.pop_front();
        }
        assert(samples@ =~= keep_last(old(self)@.push(sample), FRAME_HISTORY_LEN as nat));
        assert(old(self)@.len() == FRAME_HISTORY_LEN ==> samples@ =~= old(self)@.drop_first().push(sample));
        self.samples = samples;
    }

    /// The number of samples held.
    pub fn len(&self) -> (n: usize)
        ensures
            n == self@.len(),
            n <= FRAME_HISTORY_LEN,
    {
        proof { use_type_invariant(self); }
        self.samples.len()
    }

    /// Whether no sample is held.
    pub fn is_empty(&self) -> (b: bool)
        ensures
            b == (self@.len() == 0),
    {
        self.samples.len() == 0
    }

    /// The newest sample, if any.
    pub fn latest(&self) -> (r: Option<&T>)
        ensures
            self@.len() == 0 ==> r is None,
            self@.len() > 0 ==> r == Some(&self@[self@.len() - 1]),
    {
        let n = self.samples.len();
        if n == 0 {
            None
        } else {
            Some(&self.samples[n - 1])
        }
    }

    /// The samples, oldest first.
    pub fn samples(&self) -> (s: &VecDeque<T>)
        ensures
            s@ == self@,
    {
        &self.samples
    }
}

/// Whatever samples were pushed, the window holds exactly the newest
/// `FRAME_HISTORY_LEN` of them (all of them while fewer were pushed), in the
/// order they arrived.
pub proof fn window_keeps_newest_samples<T>(samples: Seq<T>)
    ensures
        replay(samples) == keep_last(samples, FRAME_HISTORY_LEN as nat),
        replay(samples).len() <= FRAME_HISTORY_LEN,
    decreases samples.len(),
{
    if samples.len() > 0 {
        let prefix = samples.drop_last();
        window_keeps_newest_samples(prefix);
        let n = FRAME_HISTORY_LEN as nat;
        let r = keep_last(prefix, n);
        assert(samples =~= prefix.push(samples.last()));
        if prefix.len() < n {
            assert(r.push(samples.last()) =~= samples);
        } else {
            assert(keep_last(r.push(samples.last()), n) =~= keep_last(samples, n));
        }
    }
}

} // verus!
