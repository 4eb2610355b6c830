//! Batcher: partitions an ordered queue of operations into bounded-size
//! batches.
//!
//! Batches are drawn from the front of the queue in order. Every batch except
//! possibly the last has exactly the configured maximum size; the last has
//! between one and the maximum; an empty queue yields no batch at all. The
//! batches are non-overlapping and together exhaust the queue exactly once.

use vstd::prelude::*;
use vstd::math::min;
use vstd::arithmetic::div_mod::lemma_fundamental_div_mod_converse_div;

verus! {

/// `k` full batches of size `b` account for exactly `k * b` operations.
proof fn lemma_batch_count_full(k: int, b: int)
    requires
        b >= 1,
        k >= 0,
    ensures
        num_batches(k * b, b) == k,
{
    lemma_fundamental_div_mod_converse_div(k * b + b - 1, b, k, b - 1);
}

/// `k` full batches of size `b` followed by one batch of `s` operations,
/// `1 <= s <= b`, make `k + 1` batches.
proof fn lemma_batch_count_partial(k: int, b: int, s: int)
    requires
        b >= 1,
        k >= 0,
        1 <= s <= b,
    ensures
        num_batches(k * b + s, b) == k + 1,
{
    assert(k * b + s + b - 1 == (k + 1) * b + (s - 1)) by (nonlinear_arith);
    lemma_fundamental_div_mod_converse_div(k * b + s + b - 1, b, k + 1, s - 1);
}

/// The concatenation, in order, of a sequence of batches.
pub open spec fn concat_batches(bs: Seq<Vec<String>>) -> Seq<String>
    decreases bs.len(),
{
    if bs.len() == 0 {
        Seq::empty()
    } else {
        concat_batches(bs.drop_last()) + bs.last()@
    }
}

/// How many batches a queue of `n` operations yields at batch size `b`:
/// `n / b`, rounded up.
pub open spec fn num_batches(n: int, b: int) -> int
    recommends
        b >= 1,
{
    (n + b - 1) / b
}

/// A batcher owns the not-yet-batched tail of one task's operation queue and
/// hands out up to `batch_size` operations at a time from its front.
pub struct Batcher {
    queue: Vec<String>,
    pos: usize,
    batch_size: usize,
}

impl Batcher {
    /// The batcher's bookkeeping is sound: the cursor lies within the queue
    /// and the batch size is positive.
    pub closed spec fn wf(&self) -> bool {
        &&& self.pos <= self.queue@.len()
        &&& self.batch_size >= 1
    }

    /// The operations not yet handed out, front first.
    pub closed spec fn remaining(&self) -> Seq<String> {
        self.queue@.skip(self.pos as int)
    }

    /// The configured maximum batch size.
    pub closed spec fn size(&self) -> int {
        self.batch_size as int
    }

    /// A batcher over `stmts` with maximum batch size `batch_size`.
    pub fn new(stmts: Vec<String>, batch_size: usize) -> (r: Batcher)
        requires
            batch_size >= 1,
        ensures
            r.wf(),
            r.remaining() == stmts@,
            r.size() == batch_size as int,
    {
        let r = Batcher { queue: stmts, pos: 0, batch_size };
        proof {
            assert(r.remaining() =~= r.queue@);
        }
        r
    }

    /// Removes up to `batch_size` operations from the front of the queue and
    /// yields them as one batch; yields nothing once the queue is exhausted.
    pub fn next_batch(&mut self) -> (r: Option<Vec<String>>)
        requires
            old(self).wf(),
        ensures
            final(self).wf(),
            final(self).size() == old(self).size(),
            old(self).remaining().len() == 0 ==> r is None && final(self).remaining()
                == old(self).remaining(),
            old(self).remaining().len() > 0 ==> {
                let k = min(old(self).size(), old(self).remaining().len() as int);
                &&& r is Some
                &&& r->0@ == old(self).remaining().take(k)
                &&& final(self).remaining() == old(self).remaining().skip(k)
            },
    {
        if self.pos == self.queue.len() {
            return None;
        }
        let ghost k = min(self.size(), self.remaining().len() as int);
        let ghost start = self.pos as int;
        let mut b: Vec<String> = Vec::new();
        let mut count: usize = 0;
        while count < self.batch_size && self.pos < self.queue.len()
            invariant
                old(self).wf(),
                self.queue == old(self).queue,
                self.batch_size == old(self).batch_size,
                self.pos == start + count,
                start == old(self).pos,
                count <= self.batch_size,
                self.pos <= self.queue@.len(),
                count as int <= k,
                k == min(old(self).size(), old(self).remaining().len() as int),
                b@ =~= old(self).remaining().take(count as int),
            decreases self.batch_size - count,
        {
            let ghost b_old = b@;
            b.push(self.queue[self.pos].clone());
            proof {
                assert(old(self).remaining().take(count + 1) =~= b_old.push(
                    old(self).remaining()[count as int],
                ));
            }
            self.pos += 1;
            count += 1;
        }
        proof {
            assert(count as int == k);
            assert(self.remaining() =~= old(self).remaining().skip(k));
        }
        Some(b)
    }

    /// Drains the whole queue into its sequence of batches: `ceil(n / b)` of
    /// them, all of size `b` except possibly the last (which is never empty),
    /// whose concatenation in order is exactly the original queue.
    pub fn drain_batches(&mut self) -> (r: Vec<Vec<String>>)
        requires
            old(self).wf(),
        ensures
            final(self).wf(),
            final(self).remaining().len() == 0,
            concat_batches(r@) == old(self).remaining(),
            r@.len() == num_batches(old(self).remaining().len() as int, old(self).size()),
            forall|i: int| 0 <= i < r@.len() ==> 1 <= #[trigger] r@[i]@.len() <= old(self).size(),
            forall|i: int| 0 <= i < r@.len() - 1 ==> #[trigger] r@[i]@.len() == old(self).size(),
    {
        let ghost n = old(self).remaining().len() as int;
        let ghost b_sz = old(self).size();
        let mut r: Vec<Vec<String>> = Vec::new();
        proof {
            assert(r@.len() == 0);
            assert(r@.len() * b_sz == 0) by (nonlinear_arith)
                requires
                    r@.len() == 0,
            ;
            assert(self.remaining() =~= old(self).remaining().skip(0));
        }
        loop
            invariant
                self.wf(),
                self.size() == b_sz,
                b_sz == old(self).size(),
                b_sz >= 1,
                n == old(self).remaining().len() as int,
                self.remaining().len() + r@.len() * b_sz == n,
                self.remaining() =~= old(self).remaining().skip(n - self.remaining().len()),
                concat_batches(r@) =~= old(self).remaining().take(n - self.remaining().len()),
                forall|i: int| 0 <= i < r@.len() ==> #[trigger] r@[i]@.len() == b_sz,
            decreases self.remaining().len(),
        {
            let ghost rem = self.remaining();
            let ghost r_old = r@;
            match self.next_batch() {
                None => {
                    proof {
                        assert(old(self).remaining().take(n) =~= old(self).remaining());
                        assert(r@.len() * b_sz == n);
                        lemma_batch_count_full(r@.len() as int, b_sz);
                    }
                    return r;
                },
                Some(batch) => {
                    let ghost k = min(b_sz, rem.len() as int);
                    if batch.len() < self.batch_size {
                        // the final, short batch: the queue is now exhausted
                        proof {
                            assert(k == rem.len() as int);
                            assert(self.remaining() =~= rem.skip(k));
                            assert(self.remaining().len() == 0);
                        }
                        let ghost batch_v = batch@;
                        r.push(batch);
                        proof {
                            let consumed = n - rem.len();
                            assert(r@.drop_last() =~= r_old);
                            assert(r@.last()@ == batch_v);
                            assert(concat_batches(r@) == concat_batches(r_old) + batch_v);
                            assert(rem =~= rem.take(k));
                            assert(old(self).remaining().take(consumed) + rem =~= old(
                                self,
                            ).remaining().take(n));
                            assert(old(self).remaining().take(n) =~= old(self).remaining());
                            lemma_batch_count_partial(r_old.len() as int, b_sz, k);
                            assert(r_old.len() * b_sz + k == n);
                            assert(forall|i: int|
                                0 <= i < r@.len() - 1 ==> #[trigger] r@[i]@.len() == b_sz);
                        }
                        return r;
                    }
                    let ghost batch_v = batch@;
                    r.push(batch);
                    proof {
                        let consumed = n - rem.len();
                        assert(k == b_sz);
                        assert(batch_v.len() == b_sz);
                        assert(r@.drop_last() =~= r_old);
                        assert(r@.last()@ == batch_v);
                        assert(concat_batches(r@) == concat_batches(r_old) + batch_v);
                        assert(old(self).remaining().take(consumed) + rem.take(k) =~= old(
                            self,
                        ).remaining().take(consumed + k));
                        assert(self.remaining() =~= rem.skip(k));
                        assert(self.remaining() =~= old(self).remaining().skip(consumed + k));
                        assert(r@.len() * b_sz == r_old.len() * b_sz + b_sz) by (nonlinear_arith)
                            requires
                                r@.len() == r_old.len() + 1,
                        ;
                    }
                },
            }
        }
    }
}

} // verus!
