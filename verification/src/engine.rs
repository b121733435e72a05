//! The animation loop's state: frame index, shutdown flag, and one tick.

use vstd::prelude::*;
use vstd::arithmetic::div_mod::{lemma_add_mod_noop, lemma_small_mod};
use crate::frame::Dna;
use crate::pair::{pair_from_byte, NucleotidePair};

verus! {

/// Relies on rand::random: a fresh pseudo-random value each call; nothing is
/// promised of the result.
pub assume_specification<T>[ rand::random::<T> ]() -> (r: T)
    where
        rand::distributions::Standard: rand::distributions::Distribution<T>,
;

/// The frame index that follows `i` in a set of `n` frames: one step
/// forward, wrapping at the end of the set.
pub open spec fn spec_next_index(i: int, n: int) -> int
    recommends
        n > 0,
{
    (i + 1) % n
}

/// The state that the animation loop carries between ticks: the animation,
/// the frame index rendered last, and whether the loop is still running.
pub struct App {
    pub animation: Dna,
    pub index: usize,
    pub running: bool,
}

impl App {
    /// Well-formed: the frame index stays inside the frame set (so the set
    /// is not empty).
    pub open spec fn wf(self) -> bool {
        self.index < self.animation.rows@.len()
    }

    /// The state after a shutdown signal: the same animation and index, no
    /// longer running.
    pub open spec fn spec_signaled(self) -> App {
        App { running: false, ..self }
    }

    /// A fresh loop state over `animation`: running, with the frame index at
    /// the first row. The first tick advances the index before rendering, so
    /// the first line emitted is row one, not row zero.
    pub fn new(animation: Dna) -> (a: App)
        ensures
            a.animation == animation,
            a.index == 0,
            a.running,
    {
        App { animation, index: 0, running: true }
    }

    /// The frame index that the last tick rendered.
    pub fn index(&self) -> (i: usize)
        ensures
            i == self.index,
    {
        self.index
    }

    /// Whether the loop is still running.
    pub fn is_running(&self) -> (r: bool)
        ensures
            r == self.running,
    {
        self.running
    }

    /// A shutdown signal: running becomes false and everything else stays.
    /// Delivering the signal again changes nothing, so repeated delivery is
    /// harmless.
    pub fn signal(&mut self)
        ensures
            *final(self) == old(self).spec_signaled(),
            !final(self).running,
            final(self).animation == old(self).animation,
            final(self).index == old(self).index,
    {
        self.running = false;
    }

    /// One turn of the animation loop. While the state is running, the frame
    /// index advances by one (wrapping at the end of the frame set) and the
    /// row at the advanced index is rendered: a cap row verbatim, any other
    /// row with a freshly drawn nucleotide pair substituted into its
    /// placeholder slots. Once the state has been signalled, the state does
    /// not change and no further line is produced.
    pub fn tick(&mut self) -> (line: Option<String>)
        requires
            old(self).wf(),
        ensures
            final(self).wf(),
            final(self).animation == old(self).animation,
            final(self).running == old(self).running,
            !old(self).running ==> *final(self) == *old(self) && line is None,
            old(self).running ==> final(self).index as int == spec_next_index(
                old(self).index as int,
                old(self).animation.rows@.len() as int,
            ),
            old(self).running ==> (line matches Some(l) && (exists|p: NucleotidePair|
                l@ == old(self).animation.spec_frame(final(self).index as int, p))),
    {
        if !self.running {
            return None;
        }
        let n = self.animation.rows.len();
        self.index = (self.index + 1) % n;
        let b: u8 = rand::random::<u8>();
        let p = pair_from_byte(b);
        let line = self.animation.render_frame(self.index, p);
        proof {
            assert(line@ == old(self).animation.spec_frame(self.index as int, p));
        }
        Some(line)
    }
}

/// The frame index after `k` ticks of a running loop over `n` frames,
/// starting from the initial state.
pub open spec fn spec_index_after(k: nat, n: int) -> int
    recommends
        n > 0,
    decreases k,
{
    if k == 0 {
        0
    } else {
        spec_next_index(spec_index_after((k - 1) as nat, n), n)
    }
}

/// The frame indices are deterministic and cyclic, whatever pairs were
/// drawn: after `k` ticks the index is `k` modulo the frame count, so the
/// first `n - 1` ticks render rows 1, 2, ..., n - 1 in order and the next
/// tick wraps back to row 0.
pub proof fn lemma_index_cycle(k: nat, n: int)
    requires
        n > 0,
    ensures
        spec_index_after(k, n) == k as int % n,
        k < n ==> spec_index_after(k, n) == k,
    decreases k,
{
    if k == 0 {
        lemma_small_mod(0, n as nat);
    } else {
        lemma_index_cycle((k - 1) as nat, n);
        if n == 1 {
            assert(k as int % 1 == 0) by (nonlinear_arith);
            assert((spec_index_after((k - 1) as nat, n) + 1) % 1 == 0) by (nonlinear_arith);
        } else {
            lemma_small_mod(1, n as nat);
            lemma_add_mod_noop(k as int - 1, 1, n);
        }
        if k < n {
            lemma_small_mod(k, n as nat);
        }
    }
}

/// Signalling shutdown is idempotent: a second (or any later) signal leaves
/// the state exactly as the first left it.
pub proof fn lemma_signal_idempotent(a: App)
    ensures
        a.spec_signaled().spec_signaled() == a.spec_signaled(),
{
}

} // verus!
