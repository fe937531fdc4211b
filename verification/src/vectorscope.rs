//! Rolling sample buffer behind the stereo vectorscope: a fixed-size ring
//! that keeps the most recent `BUFFER_LEN` samples and hands them back
//! oldest-first for the Lissajous trace.

use vstd::prelude::*;

verus! {

/// How many samples the trace retains (~43 ms of stereo audio at 48 kHz).
pub const BUFFER_LEN: usize = 2048;

/// The last `n` elements of `s` (all of `s` when it is shorter).
pub open spec fn last_n<S>(s: Seq<S>, n: nat) -> Seq<S> {
    if s.len() <= n {
        s
    } else {
        s.subrange(s.len() - n, s.len() as int)
    }
}

/// Rolling sample buffer. `samples` grows to `BUFFER_LEN` on the first
/// pushes, after which new samples overwrite the oldest slot at `head`.
pub struct Vectorscope<S> {
    /// Raw ring storage; once full, the oldest sample sits at `head`.
    pub samples: Vec<S>,
    head: usize,
}

impl<S: Copy> Vectorscope<S> {
    /// Shape of the ring: never longer than `BUFFER_LEN`, `head` in range,
    /// and `head` still at zero while the ring is filling up.
    pub closed spec fn wf(&self) -> bool {
        &&& self.samples@.len() <= BUFFER_LEN
        &&& self.head < BUFFER_LEN
        &&& self.samples@.len() < BUFFER_LEN ==> self.head == 0
    }

    /// How many samples `samples` holds.
    pub closed spec fn buffer_len(&self) -> nat {
        self.samples@.len()
    }

    /// The buffered samples in chronological order (oldest first).
    pub closed spec fn trace(&self) -> Seq<S> {
        let n = self.samples@.len();
        let h = if n == BUFFER_LEN { self.head as int } else { 0 };
        Seq::new(n, |i: int| self.samples@[(h + i) % (n as int)])
    }

    /// An empty buffer.
    pub fn new() -> (r: Self)
        ensures
            r.wf(),
            r.trace() == Seq::<S>::empty(),
            r.buffer_len() == 0,
    {
        let r = Vectorscope { samples: Vec::new(), head: 0 };
        assert(r.trace() =~= Seq::<S>::empty());
        r
    }

    /// Overwrite the oldest slot of a full ring with `s`.
    fn overwrite_oldest(&mut self, s: S)
        requires
            old(self).wf(),
            old(self).samples@.len() == BUFFER_LEN,
        ensures
            final(self).wf(),
            final(self).samples@.len() == BUFFER_LEN,
            final(self).trace() == old(self).trace().drop_first().push(s),
    {
        let ghost prev = self.trace();
        let h = self.head;
        self.samples.set(h, s);
        self.head = if h + 1 == BUFFER_LEN { 0 } else { h + 1 };
        let ghost next = self.trace();
        assert forall|i: int| 0 <= i < BUFFER_LEN implies #[trigger] next[i] == prev.drop_first().push(s)[i] by {
            let L = BUFFER_LEN as int;
            let nh = if h + 1 == L { 0 } else { h + 1 };
            lemma_mod_wrap(nh + i, L);
            if i < L - 1 {
                lemma_mod_wrap(h + i + 1, L);
            }
        }
        assert(next =~= prev.drop_first().push(s));
    }

    /// Append a fresh batch of samples, overwriting the oldest entries once
    /// the ring is full so it never grows past `BUFFER_LEN`.
    pub fn push_samples(&mut self, new_samples: &[S])
        requires
            old(self).wf(),
        ensures
            final(self).wf(),
            final(self).trace() == last_n(old(self).trace() + new_samples@, BUFFER_LEN as nat),
            final(self).buffer_len() == final(self).trace().len(),
            final(self).buffer_len() == (if old(self).buffer_len() + new_samples@.len() <= BUFFER_LEN {
                old(self).buffer_len() + new_samples@.len()
            } else {
                BUFFER_LEN as nat
            }),
    {
        let ghost start = self.trace();
        if new_samples.len() == 0 {
            assert(start + new_samples@ =~= start);
            return;
        }
        let mut k: usize = 0;
        if self.samples.len() < BUFFER_LEN {
            let want = BUFFER_LEN - self.samples.len();
            let take = if want < new_samples.len() { want } else { new_samples.len() };
            while k < take
                invariant
                    take <= new_samples@.len(),
                    k <= take,
                    old(self).samples@.len() + take <= BUFFER_LEN,
                    self.head == 0,
                    self.samples@ == old(self).samples@ + new_samples@.subrange(0, k as int),
                decreases take - k,
            {
                self.samples.push(new_samples[k]);
                k = k + 1;
                assert(self.samples@ =~= old(self).samples@ + new_samples@.subrange(0, k as int));
            }
            assert(self.trace() =~= self.samples@) by {
                let n = self.samples@.len() as int;
                assert forall|i: int| 0 <= i < n implies #[trigger] self.trace()[i] == self.samples@[i] by {
                    lemma_mod_small(i, n);
                }
            }
            assert(start =~= old(self).samples@) by {
                let n = old(self).samples@.len() as int;
                assert forall|i: int| 0 <= i < n implies #[trigger] start[i] == old(self).samples@[i] by {
                    lemma_mod_small(i, n);
                }
            }
            if take == new_samples.len() {
                assert(new_samples@.subrange(0, k as int) =~= new_samples@);
                return;
            }
        }
        // The ring is full from here on; keep overwriting the oldest slot.
        assert(old(self).samples@.len() + new_samples@.len() >= BUFFER_LEN);
        while k < new_samples.len()
            invariant
                self.wf(),
                self.samples@.len() == BUFFER_LEN,
                old(self).samples@.len() + new_samples@.len() >= BUFFER_LEN,
                k <= new_samples@.len(),
                self.trace() == last_n(start + new_samples@.subrange(0, k as int), BUFFER_LEN as nat),
            decreases new_samples@.len() - k,
        {
            let ghost before = self.trace();
            self.overwrite_oldest(new_samples[k]);
            proof {
                let a = start + new_samples@.subrange(0, k as int);
                let b = start + new_samples@.subrange(0, k + 1);
                assert(b =~= a.push(new_samples@[k as int]));
                lemma_last_n_push(a, new_samples@[k as int], BUFFER_LEN as nat);
            }
            k = k + 1;
        }
        assert(new_samples@.subrange(0, k as int) =~= new_samples@);
    }

    /// The buffered samples in chronological order (oldest first).
    pub fn ordered(&self) -> (r: Vec<S>)
        requires
            self.wf(),
        ensures
            r@ == self.trace(),
    {
        let n = self.samples.len();
        let h = if n == BUFFER_LEN { self.head } else { 0 };
        let mut r: Vec<S> = Vec::new();
        let mut i: usize = 0;
        while i < n
            invariant
                n == self.samples@.len(),
                self.wf(),
                h == (if n == BUFFER_LEN { self.head } else { 0 }),
                i <= n,
                r@ =~= self.trace().subrange(0, i as int),
            decreases n - i,
        {
            let j = if h + i >= n { h + i - n } else { h + i };
            proof {
                lemma_mod_wrap(h + i, n as int);
            }
            r.push(self.samples[j]);
            i = i + 1;
            assert(r@ =~= self.trace().subrange(0, i as int));
        }
        r
    }
}

/// `x % n` for `0 <= x < 2n`: no more than one wrap-around.
proof fn lemma_mod_wrap(x: int, n: int)
    requires
        n > 0,
        0 <= x < 2 * n,
    ensures
        x % n == (if x < n { x } else { x - n }),
{
    if x < n {
        vstd::arithmetic::div_mod::lemma_fundamental_div_mod_converse_mod(x, n, 0, x);
    } else {
        vstd::arithmetic::div_mod::lemma_fundamental_div_mod_converse_mod(x, n, 1, x - n);
    }
}

proof fn lemma_mod_small(i: int, n: int)
    requires
        0 <= i < n,
    ensures
        (0 + i) % n == i,
{
    lemma_mod_wrap(i, n);
}

/// Keeping the last `n` of a sequence and then one more element is the
/// same as keeping the last `n` of the extended sequence, when the kept
/// window is already full.
pub proof fn lemma_last_n_push<S>(a: Seq<S>, x: S, n: nat)
    requires
        n > 0,
        last_n(a, n).len() == n,
    ensures
        last_n(a, n).drop_first().push(x) == last_n(a.push(x), n),
{
    assert(last_n(a, n).drop_first().push(x) =~= last_n(a.push(x), n));
}

/// Pushing one batch and then another leaves the same trace as pushing
/// both batches at once: the ring only ever remembers the newest
/// `BUFFER_LEN` samples of everything it was given.
pub proof fn lemma_push_batches_compose<S>(t: Seq<S>, a: Seq<S>, b: Seq<S>)
    ensures
        last_n(last_n(t + a, BUFFER_LEN as nat) + b, BUFFER_LEN as nat)
            == last_n(t + a + b, BUFFER_LEN as nat),
{
    let L = BUFFER_LEN as int;
    let x = t + a;
    let lhs = last_n(last_n(x, BUFFER_LEN as nat) + b, BUFFER_LEN as nat);
    let rhs = last_n(x + b, BUFFER_LEN as nat);
    if x.len() <= L {
        assert(last_n(x, BUFFER_LEN as nat) == x);
    } else {
        let y = last_n(x, BUFFER_LEN as nat);
        assert(y.len() == L);
        assert(lhs =~= rhs) by {
            assert((y + b).len() > L || (y + b).len() == L);
        }
    }
    assert(t + a + b =~= x + b);
}

} // verus!
