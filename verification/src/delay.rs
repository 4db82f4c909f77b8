//! The circular delay line: a fixed-length FIFO of the most recent samples.
//!
//! A `Delay` of length `n >= 1` holds the last `n` inputs; `output()`
//! reads the oldest of them and `input(x)` evicts the oldest while
//! appending `x`. Its view is that window as a sequence, oldest first.
//! A requested length of zero still keeps one slot, so `output()` then
//! returns the most recently written value with zero latency (the
//! interpretation that a one-sample feedforward tap relies on).

use crate::sample::{sample_ok, SCALE};
use vstd::prelude::*;

verus! {

/// A fixed-capacity ring buffer of samples with one rotating cursor.
/// `buffer[pos]` is the oldest stored sample; writing lands on the same
/// slot and then advances the cursor.
pub struct Delay {
    buffer: Vec<i64>,
    pos: usize,
}

impl View for Delay {
    type V = Seq<int>;

    /// The stored window, oldest sample first.
    closed spec fn view(&self) -> Seq<int> {
        let n = self.buffer@.len() as int;
        let p = self.pos as int;
        Seq::new(
            self.buffer@.len(),
            |j: int|
                if p + j < n {
                    self.buffer@[p + j] as int
                } else {
                    self.buffer@[p + j - n] as int
                },
        )
    }
}

impl Delay {
    /// Structural invariant: at least one slot, cursor in range, and
    /// every stored sample valid.
    pub closed spec fn wf(&self) -> bool {
        &&& self.buffer@.len() >= 1
        &&& (self.pos as int) < self.buffer@.len()
        &&& forall|i: int|
            0 <= i < self.buffer@.len() ==> sample_ok(#[trigger] self.buffer@[i] as int)
    }

    /// A well-formed delay line has a non-empty window of valid samples.
    pub proof fn lemma_wf_view(&self)
        requires
            self.wf(),
        ensures
            self@.len() >= 1,
            forall|i: int| 0 <= i < self@.len() ==> sample_ok(#[trigger] self@[i]),
    {
    }

    /// Allocates a line of `length` slots (one slot when `length == 0`),
    /// all holding silence.
    pub fn new(length: usize) -> (d: Delay)
        ensures
            d.wf(),
            d@.len() == if length == 0 {
                1int
            } else {
                length as int
            },
            forall|i: int| 0 <= i < d@.len() ==> d@[i] == 0,
    {
        let w: usize = if length == 0 {
            1
        } else {
            length
        };
        let mut buffer: Vec<i64> = Vec::new();
        while buffer.len() < w
            invariant
                buffer@.len() <= w,
                forall|i: int| 0 <= i < buffer@.len() ==> buffer@[i] == 0i64,
            decreases w - buffer.len(),
        {
            buffer.push(0i64);
        }
        let d = Delay { buffer, pos: 0 };
        proof {
            assert(forall|i: int| 0 <= i < d@.len() ==> d@[i] == 0);
        }
        d
    }

    /// Reads the oldest stored sample without changing the state.
    pub fn output(&self) -> (y: i64)
        requires
            self.wf(),
        ensures
            y as int == self@[0],
            sample_ok(y as int),
    {
        self.buffer[self.pos]
    }

    /// Appends `x` as the newest sample and discards the oldest,
    /// advancing the window by exactly one position.
    pub fn input(&mut self, x: i64)
        requires
            old(self).wf(),
            sample_ok(x as int),
        ensures
            final(self).wf(),
            final(self)@ == old(self)@.skip(1).push(x as int),
            final(self)@.len() == old(self)@.len(),
    {
        let n = self.buffer.len();
        let p = self.pos;
        self.buffer[p] = x;
        self.pos = if p + 1 == n {
            0
        } else {
            p + 1
        };
        proof {
            let target = old(self)@.skip(1).push(x as int);
            assert forall|j: int| 0 <= j < self@.len() implies self@[j] == target[j] by {
                if j < self@.len() - 1 {
                    assert(target[j] == old(self)@[j + 1]);
                }
            }
            assert(self@ =~= target);
        }
    }
}

/// The window left after feeding every sample of `xs`, in order, into a
/// line whose window was `w`.
pub open spec fn delay_feed(w: Seq<int>, xs: Seq<int>) -> Seq<int>
    decreases xs.len(),
{
    if xs.len() == 0 {
        w
    } else {
        delay_feed(w.skip(1).push(xs[0]), xs.skip(1))
    }
}

/// A window of `n` samples of silence, the state right after construction.
pub open spec fn zero_window(n: nat) -> Seq<int> {
    Seq::new(n, |i: int| 0int)
}

/// The number of slots a delay line requested with length `n` holds:
/// a zero-length request still keeps one slot.
pub open spec fn window_len(n: int) -> int {
    if n == 0 {
        1int
    } else {
        n
    }
}

/// The FIFO law: after feeding `xs`, the window is exactly the last
/// `w.len()` samples of the combined stream `w + xs`.
pub proof fn lemma_delay_feed_window(w: Seq<int>, xs: Seq<int>)
    requires
        w.len() >= 1,
    ensures
        delay_feed(w, xs) == (w + xs).skip(xs.len() as int),
    decreases xs.len(),
{
    if xs.len() == 0 {
        assert((w + xs).skip(0) =~= w);
    } else {
        let w1 = w.skip(1).push(xs[0]);
        lemma_delay_feed_window(w1, xs.skip(1));
        assert forall|j: int| 0 <= j < w1.len() + xs.len() - 1 implies (w1 + xs.skip(1))[j] == (
        w + xs).skip(1)[j] by {
            if j < w.len() - 1 {
                assert((w1 + xs.skip(1))[j] == w[j + 1]);
            } else if j == w.len() - 1 {
                assert((w1 + xs.skip(1))[j] == xs[0]);
            } else {
                assert((w1 + xs.skip(1))[j] == xs.skip(1)[j - w.len()]);
            }
        }
        assert(w1 + xs.skip(1) =~= (w + xs).skip(1));
        assert((w1 + xs.skip(1)).skip(xs.len() - 1) =~= (w + xs).skip(xs.len() as int));
    }
}

/// The exact impulse-delay law: starting from silence in a line of
/// length `n >= 1`, feed a unit impulse and then zeros, reading the
/// oldest sample after each input. The reading is zero for the first
/// `n - 1` inputs and the unit impulse itself on the `n`-th.
pub proof fn lemma_delay_impulse(n: nat, xs: Seq<int>)
    requires
        1 <= xs.len() <= n,
        xs[0] == SCALE,
        forall|i: int| 1 <= i < xs.len() ==> xs[i] == 0,
    ensures
        delay_feed(zero_window(n), xs)[0] == if xs.len() == n {
            SCALE as int
        } else {
            0int
        },
{
    lemma_delay_feed_window(zero_window(n), xs);
    assert((zero_window(n) + xs)[xs.len() as int] == delay_feed(zero_window(n), xs)[0]);
}

} // verus!
