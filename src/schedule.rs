use vstd::prelude::*;

verus! {

/// What the reduction loop does next.
#[derive(Debug, Clone, Copy, PartialEq, Eq, Structural)]
pub enum Step {
    /// Inspect the coefficient `mu[row][col]` and, when its magnitude exceeds
    /// one half, subtract the nearest integer multiple of basis row `col`
    /// from basis row `row`, then orthogonalize again.
    SizeReduce { row: usize, col: usize },
    /// Test the Lovász condition on the pair of rows `row - 1` and `row`.
    LovaszTest { row: usize },
    /// Every pair of consecutive rows has passed the Lovász test: the basis is reduced.
    Finished,
}

/// Steps taken by complete passes over rows `k` to `rows - 1` when every
/// Lovász test holds: a pass over row `r` inspects `r` coefficients and then
/// tests once.
pub open spec fn passes_from(k: nat, rows: nat) -> nat
    decreases rows - k,
{
    if k >= rows {
        0
    } else {
        (k + 1) + passes_from(k + 1, rows)
    }
}

/// The position of the reduction loop over a basis of `rows` vectors: the
/// current row `k`, and how many coefficients of row `k` are still to be
/// inspected in the current size-reduction pass (they are inspected from
/// column `k - 1` down to column `0`).
pub struct Schedule {
    rows: usize,
    k: usize,
    pending: usize,
}

impl Schedule {
    /// Number of basis vectors.
    pub closed spec fn row_count(&self) -> nat {
        self.rows as nat
    }

    /// The current row `k`.
    pub closed spec fn current(&self) -> nat {
        self.k as nat
    }

    /// Number of coefficients of the current row not yet inspected in this pass.
    pub closed spec fn pending(&self) -> nat {
        self.pending as nat
    }

    /// The current row stays between 1 and the number of rows, and a pass
    /// never has more coefficients left than the current row has.
    pub open spec fn wf(&self) -> bool {
        &&& 1 <= self.current() <= self.row_count()
        &&& self.pending() <= self.current()
    }

    /// The step that the loop takes from this position.
    pub open spec fn spec_step(&self) -> Step {
        if self.current() >= self.row_count() {
            Step::Finished
        } else if self.pending() > 0 {
            Step::SizeReduce { row: self.current() as usize, col: (self.pending() - 1) as usize }
        } else {
            Step::LovaszTest { row: self.current() as usize }
        }
    }

    /// Number of steps until `Finished` if every Lovász test from here on holds.
    pub open spec fn remaining(&self) -> nat {
        if self.current() >= self.row_count() {
            0
        } else {
            self.pending() + 1 + passes_from(self.current() + 1, self.row_count())
        }
    }

    /// The start of a reduction of `rows` vectors: row 1, with a full
    /// size-reduction pass ahead.
    pub fn new(rows: usize) -> (s: Self)
        requires
            rows > 0,
        ensures
            s.wf(),
            s.row_count() == rows,
            s.current() == 1,
            s.pending() == 1,
    {
        Schedule { rows, k: 1, pending: 1 }
    }

    /// The current row `k`.
    pub fn current_row(&self) -> (k: usize)
        ensures
            k == self.current(),
    {
        self.k
    }

    /// The step that the loop takes from this position; every index it
    /// names is a row of the basis, and a coefficient column lies below its row.
    pub fn next_step(&self) -> (st: Step)
        requires
            self.wf(),
        ensures
            st == self.spec_step(),
            st is Finished <==> self.remaining() == 0,
            st matches Step::SizeReduce { row, col } ==> col < row < self.row_count(),
            st matches Step::LovaszTest { row } ==> 1 <= row < self.row_count(),
    {
        if self.k >= self.rows {
            Step::Finished
        } else if self.pending > 0 {
            Step::SizeReduce { row: self.k, col: self.pending - 1 }
        } else {
            Step::LovaszTest { row: self.k }
        }
    }

    /// Records that the coefficient named by the current size-reduction step
    /// was handled: the pass moves on to the next lower column.
    pub fn size_step_done(&mut self)
        requires
            old(self).wf(),
            old(self).spec_step() is SizeReduce,
        ensures
            final(self).wf(),
            final(self).row_count() == old(self).row_count(),
            final(self).current() == old(self).current(),
            final(self).pending() == old(self).pending() - 1,
            final(self).remaining() + 1 == old(self).remaining(),
    {
        self.pending = self.pending - 1;
    }

    /// Records the outcome of the Lovász test on rows `k - 1` and `k`. When it
    /// holds, the loop advances to row `k + 1`; otherwise it returns the pair
    /// of basis rows to exchange and steps back to row `max(k - 1, 1)`. Either
    /// way a full size-reduction pass of the new row follows.
    pub fn lovasz_done(&mut self, holds: bool) -> (exchange: Option<(usize, usize)>)
        requires
            old(self).wf(),
            old(self).spec_step() is LovaszTest,
        ensures
            final(self).wf(),
            final(self).row_count() == old(self).row_count(),
            holds ==> exchange is None && final(self).current() == old(self).current() + 1,
            holds ==> final(self).remaining() + 1 == old(self).remaining(),
            !holds ==> exchange == Some(((old(self).current() as usize, (old(self).current() - 1) as usize)))
                && final(self).current() == if old(self).current() > 1 {
                    old(self).current() - 1
                } else {
                    1
                },
            final(self).pending() == final(self).current(),
    {
        if holds {
            proof {
                let (k, rows) = (self.current(), self.row_count());
                assert(passes_from(k + 1, rows) == if k + 1 >= rows {
                    0
                } else {
                    (k + 2) + passes_from(k + 2, rows)
                });
            }
            self.k = self.k + 1;
            self.pending = self.k;
            None
        } else {
            let exchange = Some((self.k, self.k - 1));
            if self.k > 1 {
                self.k = self.k - 1;
            }
            self.pending = self.k;
            exchange
        }
    }
}

} // verus!
