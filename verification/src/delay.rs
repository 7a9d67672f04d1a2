//! Integer-sample delay lines on a fixed ring buffer.
//!
//! The crossfeed cross paths, the HRTF far-ear (ITD) paths and the reverb
//! combs and all-passes all run on this ring. The buffer is allocated once,
//! at construction; processing a sample never allocates.
use vstd::prelude::*;

verus! {

/// Slot of the ring that holds the `i`-th oldest sample when the next write
/// goes to slot `w`.
pub open spec fn ring_slot(w: int, i: int, cap: int) -> int {
    if w + i < cap {
        w + i
    } else {
        w + i - cap
    }
}

/// The smaller of `d` and `cap - 1`: the longest delay a ring of `cap`
/// samples can realise.
pub open spec fn clamp_delay(d: nat, cap: nat) -> nat {
    if d <= cap - 1 {
        d
    } else {
        (cap - 1) as nat
    }
}

/// A sequence of `n` copies of `x`.
pub open spec fn filled<T>(n: nat, x: T) -> Seq<T> {
    Seq::new(n, |_i: int| x)
}

/// A delay line: a ring of the last `capacity` samples and a delay,
/// in samples, smaller than the capacity.
#[derive(Debug)]
pub struct DelayLine<T> {
    buf: Vec<T>,
    write: usize,
    delay: usize,
}

/// The value of a [`DelayLine`]: the samples it holds, oldest first, and its
/// delay.
pub struct DelayLineView<T> {
    pub history: Seq<T>,
    pub delay: nat,
}

impl<T> View for DelayLine<T> {
    type V = DelayLineView<T>;

    closed spec fn view(&self) -> DelayLineView<T> {
        DelayLineView {
            history: Seq::new(
                self.buf@.len(),
                |i: int| self.buf@[ring_slot(self.write as int, i, self.buf@.len() as int)],
            ),
            delay: self.delay as nat,
        }
    }
}

impl<T> DelayLine<T> {
    /// The ring is non-empty and its write position and delay lie inside it.
    pub closed spec fn wf(&self) -> bool {
        &&& self.buf@.len() > 0
        &&& self.write < self.buf@.len()
        &&& self.delay < self.buf@.len()
    }
}

impl<T: Copy> DelayLine<T> {
    /// A ring of `capacity` copies of `fill` with delay `delay`, cut to
    /// `capacity - 1` where it is longer.
    pub fn new(capacity: usize, delay: usize, fill: T) -> (d: Self)
        requires
            capacity > 0,
        ensures
            d.wf(),
            d@.history == filled(capacity as nat, fill),
            d@.delay == clamp_delay(delay as nat, capacity as nat),
    {
        let mut buf: Vec<T> = Vec::new();
        let mut i: usize = 0;
        while i < capacity
            invariant
                i <= capacity,
                buf@ == filled(i as nat, fill),
            decreases capacity - i,
        {
            buf.push(fill);
            i = i + 1;
            assert(buf@ =~= filled(i as nat, fill));
        }
        let d: usize = if delay <= capacity - 1 {
            delay
        } else {
            capacity - 1
        };
        let line = DelayLine { buf, write: 0, delay: d };
        assert(line@.history =~= filled(capacity as nat, fill));
        line
    }

    /// Number of samples the ring holds.
    pub fn capacity(&self) -> (n: usize)
        requires
            self.wf(),
        ensures
            n == self@.history.len(),
            n > 0,
    {
        self.buf.len()
    }

    /// The delay, in samples, that [`DelayLine::process`] realises.
    pub fn delay(&self) -> (d: usize)
        requires
            self.wf(),
        ensures
            d == self@.delay,
            d < self@.history.len(),
    {
        self.delay
    }

    /// Changes the delay (cut to `capacity - 1`) and keeps the samples.
    pub fn set_delay(&mut self, delay: usize)
        requires
            old(self).wf(),
        ensures
            final(self).wf(),
            final(self)@.history == old(self)@.history,
            final(self)@.delay == clamp_delay(delay as nat, old(self)@.history.len()),
    {
        let cap: usize = self.buf.len();
        self.delay = if delay <= cap - 1 {
            delay
        } else {
            cap - 1
        };
    }

    /// The oldest sample in the ring: the one the next write replaces.
    pub fn oldest(&self) -> (x: T)
        requires
            self.wf(),
        ensures
            x == self@.history[0],
    {
        self.buf[self.write]
    }

    /// Writes `x` as the newest sample, dropping the oldest one.
    pub fn push(&mut self, x: T)
        requires
            old(self).wf(),
        ensures
            final(self).wf(),
            final(self)@.history == old(self)@.history.drop_first().push(x),
            final(self)@.delay == old(self)@.delay,
    {
        let ghost old_view = self@;
        let ghost w = self.write as int;
        let cap: usize = self.buf.len();
        self.buf.set(self.write, x);
        self.write = if self.write + 1 == cap {
            0
        } else {
            self.write + 1
        };
        proof {
            let new_hist = self@.history;
            let expect = old_view.history.drop_first().push(x);
            assert forall|i: int| 0 <= i < cap implies #[trigger] new_hist[i] == expect[i] by {
                if i < cap - 1 {
                    assert(ring_slot(self.write as int, i, cap as int) == ring_slot(
                        w,
                        i + 1,
                        cap as int,
                    ));
                } else {
                    assert(ring_slot(self.write as int, i, cap as int) == w);
                }
            }
            assert(new_hist =~= expect);
        }
    }

    /// Writes `x` as the newest sample and returns the sample written
    /// `delay` steps before it (`x` itself when the delay is 0).
    pub fn process(&mut self, x: T) -> (y: T)
        requires
            old(self).wf(),
        ensures
            final(self).wf(),
            final(self)@.history == old(self)@.history.drop_first().push(x),
            final(self)@.delay == old(self)@.delay,
            y == final(self)@.history[final(self)@.history.len() - 1 - final(self)@.delay],
            process_step(old(self)@, x, final(self)@, y),
    {
        let cap: usize = self.buf.len();
        let w: usize = self.write;
        let d: usize = self.delay;
        let ghost old_view = self@;
        self.buf.set(w, x);
        self.write = if w + 1 == cap {
            0
        } else {
            w + 1
        };
        let read: usize = if w >= d {
            w - d
        } else {
            cap - d + w
        };
        proof {
            let new_hist = self@.history;
            let expect = old_view.history.drop_first().push(x);
            assert forall|i: int| 0 <= i < cap implies #[trigger] new_hist[i] == expect[i] by {
                if i < cap - 1 {
                    assert(ring_slot(self.write as int, i, cap as int) == ring_slot(
                        w as int,
                        i + 1,
                        cap as int,
                    ));
                } else {
                    assert(ring_slot(self.write as int, i, cap as int) == w);
                }
            }
            assert(new_hist =~= expect);
            assert(ring_slot(self.write as int, cap - 1 - d, cap as int) == read);
        }
        self.buf[read]
    }

    /// Overwrites every sample with `fill`; the delay is kept.
    pub fn reset(&mut self, fill: T)
        requires
            old(self).wf(),
        ensures
            final(self).wf(),
            final(self)@.history == filled(old(self)@.history.len(), fill),
            final(self)@.delay == old(self)@.delay,
    {
        let cap: usize = self.buf.len();
        let mut i: usize = 0;
        while i < cap
            invariant
                cap == self.buf@.len(),
                i <= cap,
                self.write < cap,
                self.delay < cap,
                self.delay == old(self).delay,
                forall|j: int| 0 <= j < i ==> self.buf@[j] == fill,
            decreases cap - i,
        {
            self.buf.set(i, fill);
            i = i + 1;
        }
        self.write = 0;
        assert(self@.history =~= filled(cap as nat, fill));
    }
}

} // verus!

verus! {

/// The ring contents after writing each sample of `xs`, in order, into a ring
/// holding `h`: each write drops the oldest sample and appends the new one.
pub open spec fn push_all<T>(h: Seq<T>, xs: Seq<T>) -> Seq<T>
    decreases xs.len(),
{
    if xs.len() == 0 {
        h
    } else {
        push_all(h.drop_first().push(xs[0]), xs.drop_first())
    }
}

/// After a run of writes the ring holds the last `h.len()` samples of the
/// old contents followed by the written samples.
pub proof fn lemma_push_all_window<T>(h: Seq<T>, xs: Seq<T>)
    requires
        h.len() > 0,
    ensures
        push_all(h, xs) == (h + xs).subrange(xs.len() as int, (h.len() + xs.len()) as int),
    decreases xs.len(),
{
    if xs.len() > 0 {
        let h1 = h.drop_first().push(xs[0]);
        lemma_push_all_window(h1, xs.drop_first());
        assert((h1 + xs.drop_first()).subrange(
            xs.drop_first().len() as int,
            (h1.len() + xs.drop_first().len()) as int,
        ) =~= (h + xs).subrange(xs.len() as int, (h.len() + xs.len()) as int));
    } else {
        assert((h + xs).subrange(0, h.len() as int) =~= h);
    }
}

/// A delay line delays by exactly its delay: fed the samples `xs` one by one
/// (starting from contents `h`), the output at step `i` is the input of step
/// `i - d`, or, for the first `d` steps, a sample that was in the ring before.
pub proof fn lemma_delay_outputs<T>(h: Seq<T>, xs: Seq<T>, d: nat, i: int)
    requires
        h.len() > 0,
        d < h.len(),
        0 <= i < xs.len(),
    ensures
        push_all(h, xs.take(i + 1))[h.len() - 1 - d] == if i >= d {
            xs[i - d]
        } else {
            h[h.len() + i - d]
        },
{
    lemma_push_all_window(h, xs.take(i + 1));
    let w = h + xs.take(i + 1);
    assert(push_all(h, xs.take(i + 1))[h.len() - 1 - d] == w[i + 1 + h.len() - 1 - d]);
}

} // verus!

verus! {

/// One step of [`DelayLine::process`], as its contract states it: from the
/// line `before`, writing `x` gives the line `after` and the output `y`.
pub open spec fn process_step<T>(
    before: DelayLineView<T>,
    x: T,
    after: DelayLineView<T>,
    y: T,
) -> bool {
    &&& after.history == before.history.drop_first().push(x)
    &&& after.delay == before.delay
    &&& y == after.history[after.history.len() - 1 - after.delay]
}

/// A run of `process` calls delays by exactly the line's delay `d`: if the
/// line goes through `states[0], states[1], ...` while the calls are fed
/// `xs[0], xs[1], ...` and return `ys[0], ys[1], ...`, then call `k` returns
/// `xs[k - d]` once `k >= d`, and before that the sample the line held
/// `d - k` places from its newest end at the start of the run, which is
/// `fill` for a line just made by [`DelayLine::new`] or [`DelayLine::reset`]
/// with `fill`.
pub proof fn lemma_process_run<T>(
    states: Seq<DelayLineView<T>>,
    xs: Seq<T>,
    ys: Seq<T>,
    fill: T,
)
    requires
        states.len() == xs.len() + 1,
        ys.len() == xs.len(),
        states[0].history.len() > 0,
        states[0].delay < states[0].history.len(),
        forall|k: int|
            0 <= k < xs.len() ==> #[trigger] process_step(states[k], xs[k], states[k + 1], ys[k]),
    ensures
        forall|k: int|
            0 <= k < xs.len() ==> #[trigger] ys[k] == if k >= states[0].delay {
                xs[k - states[0].delay]
            } else {
                states[0].history[states[0].history.len() + k - states[0].delay]
            },
        states[0].history == filled(states[0].history.len(), fill) ==> forall|k: int|
            0 <= k < xs.len() && k < states[0].delay ==> #[trigger] ys[k] == fill,
{
    let h = states[0].history;
    let cap = h.len() as int;
    let d = states[0].delay as int;
    assert forall|k: int| 0 <= k <= xs.len() implies states[k].history == (h + xs.take(
        k,
    )).subrange(k, cap + k) && states[k].delay == d by {
        lemma_run_window(states, xs, ys, k);
    }
    assert forall|k: int| 0 <= k < xs.len() implies #[trigger] ys[k] == if k >= d {
        xs[k - d]
    } else {
        h[cap + k - d]
    } by {
        assert(process_step(states[k], xs[k], states[k + 1], ys[k]));
        assert(states[k + 1].history == (h + xs.take(k + 1)).subrange(k + 1, cap + k + 1));
        assert(ys[k] == (h + xs.take(k + 1))[cap + k - d]);
    }
    if h == filled(cap as nat, fill) {
        assert forall|k: int| 0 <= k < xs.len() && k < d implies #[trigger] ys[k] == fill by {
            assert(ys[k] == h[cap + k - d]);
        }
    }
}

/// Along a run of `process` calls, after `k` calls the line holds the last
/// `capacity` samples of its starting contents followed by the first `k`
/// inputs, and keeps its delay.
proof fn lemma_run_window<T>(states: Seq<DelayLineView<T>>, xs: Seq<T>, ys: Seq<T>, k: int)
    requires
        states.len() == xs.len() + 1,
        ys.len() == xs.len(),
        states[0].history.len() > 0,
        forall|j: int|
            0 <= j < xs.len() ==> #[trigger] process_step(states[j], xs[j], states[j + 1], ys[j]),
        0 <= k <= xs.len(),
    ensures
        states[k].history == (states[0].history + xs.take(k)).subrange(
            k,
            states[0].history.len() + k,
        ),
        states[k].delay == states[0].delay,
    decreases k,
{
    let h = states[0].history;
    let cap = h.len() as int;
    if k == 0 {
        assert((h + xs.take(0)).subrange(0, cap) =~= h);
    } else {
        lemma_run_window(states, xs, ys, k - 1);
        let j = k - 1;
        assert(process_step(states[j], xs[j], states[j + 1], ys[j]));
        assert(j + 1 == k);
        assert(states[k].history =~= (h + xs.take(k)).subrange(k, cap + k));
    }
}

} // verus!
