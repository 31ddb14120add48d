//! Accounting for one direction of the bidirectional relay. The relay
//! itself moves bytes between two streams; this module holds the verified
//! decision of when a direction is finished (a zero-length read) and the
//! running total of bytes it has moved.

use vstd::prelude::*;

verus! {

/// The state of one relay direction: how many bytes it has moved so far
/// and whether it has observed end-of-stream.
#[derive(Clone, Copy, Debug, PartialEq, Eq, Structural)]
pub struct RelayDirection {
    pub total: u64,
    pub finished: bool,
}

/// `a + n`, stopping at `u64::MAX` once the sum no longer fits.
pub open spec fn sat_add(a: u64, n: int) -> u64 {
    if a + n <= u64::MAX {
        (a + n) as u64
    } else {
        u64::MAX
    }
}

/// The state of a direction after one read of `n` bytes: a finished
/// direction never changes again; otherwise the total grows by `n` and a
/// zero-length read finishes the direction.
pub open spec fn after_read(d: RelayDirection, n: usize) -> RelayDirection {
    if d.finished {
        d
    } else {
        RelayDirection { total: sat_add(d.total, n as int), finished: n == 0 }
    }
}

/// The state of a direction after a whole sequence of reads.
pub open spec fn after_reads(d: RelayDirection, reads: Seq<usize>) -> RelayDirection
    decreases reads.len(),
{
    if reads.len() == 0 {
        d
    } else {
        after_reads(after_read(d, reads[0]), reads.skip(1))
    }
}

/// The number of bytes a sequence of reads carries in all.
pub open spec fn total_len(reads: Seq<usize>) -> int
    decreases reads.len(),
{
    if reads.len() == 0 {
        0
    } else {
        reads[0] + total_len(reads.skip(1))
    }
}

impl RelayDirection {
    /// A direction that has moved nothing and is still running.
    pub fn new() -> (d: RelayDirection)
        ensures
            d.total == 0,
            !d.finished,
    {
        RelayDirection { total: 0, finished: false }
    }

    /// Record one read of `n` bytes. The result says whether the bytes are
    /// to be forwarded: they are exactly when the direction was still
    /// running and the read was not end-of-stream.
    pub fn on_read(&mut self, n: usize) -> (forward: bool)
        ensures
            *final(self) == after_read(*old(self), n),
            forward == (!old(self).finished && n > 0),
    {
        if self.finished {
            false
        } else if n == 0 {
            self.finished = true;
            false
        } else {
            let m: u64 = n as u64;
            if m <= u64::MAX - self.total {
                self.total = self.total + m;
            } else {
                self.total = u64::MAX;
            }
            true
        }
    }
}

/// A sequence of reads never carries a negative number of bytes.
pub proof fn lemma_total_len_nonneg(reads: Seq<usize>)
    ensures
        total_len(reads) >= 0,
    decreases reads.len(),
{
    if reads.len() > 0 {
        lemma_total_len_nonneg(reads.skip(1));
    }
}

/// A finished direction stays as it is, whatever is read afterwards.
pub proof fn lemma_finished_is_stable(d: RelayDirection, reads: Seq<usize>)
    requires
        d.finished,
    ensures
        after_reads(d, reads) == d,
    decreases reads.len(),
{
    if reads.len() > 0 {
        lemma_finished_is_stable(d, reads.skip(1));
    }
}

/// End-of-stream ends a direction: after a zero-length read the direction
/// is finished, its total never moves again, and no later read changes it.
pub proof fn lemma_eof_stops_direction(d: RelayDirection, reads: Seq<usize>)
    ensures
        after_read(d, 0).finished,
        after_read(d, 0).total == d.total,
        after_reads(after_read(d, 0), reads) == after_read(d, 0),
{
    assert(sat_add(d.total, 0) == d.total);
    lemma_finished_is_stable(after_read(d, 0), reads);
}

/// A running direction reports the exact number of bytes it moved: after
/// any sequence of non-empty reads whose sum fits in the counter, the
/// total has grown by exactly that sum and the direction still runs.
pub proof fn lemma_direction_reports_sum(d: RelayDirection, reads: Seq<usize>)
    requires
        !d.finished,
        forall|i: int| 0 <= i < reads.len() ==> reads[i] > 0,
        d.total + total_len(reads) <= u64::MAX,
    ensures
        after_reads(d, reads).total == d.total + total_len(reads),
        !after_reads(d, reads).finished,
    decreases reads.len(),
{
    if reads.len() > 0 {
        lemma_total_len_nonneg(reads.skip(1));
        let d2 = after_read(d, reads[0]);
        assert(d2.total == d.total + reads[0]);
        assert(forall|i: int| 0 <= i < reads.skip(1).len() ==> reads.skip(1)[i] > 0);
        lemma_direction_reports_sum(d2, reads.skip(1));
    }
}

} // verus!
