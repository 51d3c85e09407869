use vstd::arithmetic::div_mod::{lemma_div_is_ordered, lemma_fundamental_div_mod_converse};
use vstd::prelude::*;

verus! {

/// Progress in hundredths of a percent, rounded to the nearest hundredth
/// (halves round up). Meaningful only for a positive total.
pub open spec fn hundredths_of(read: nat, total: nat) -> nat
    recommends
        total > 0,
{
    ((20000 * read + total) / (2 * total)) as nat
}

/// ASCII decimal digits of `n`, most significant first, without leading zeros.
pub open spec fn decimal(n: nat) -> Seq<u8>
    decreases n,
{
    if n < 10 {
        seq![(48 + n) as u8]
    } else {
        decimal(n / 10).push((48 + n % 10) as u8)
    }
}

/// The text after the prefix: `W.FF` for a positive total, `NaN` for nothing
/// out of nothing and `inf` for bytes out of a zero total.
pub open spec fn percent_text(read: nat, total: nat) -> Seq<u8> {
    if total == 0 {
        if read == 0 {
            seq![78u8, 97u8, 78u8]
        } else {
            seq![105u8, 110u8, 102u8]
        }
    } else {
        let h = hundredths_of(read, total);
        decimal(h / 100) + seq![46u8, (48 + (h / 10) % 10) as u8, (48 + h % 10) as u8]
    }
}

/// `\rProgress: ` as bytes.
pub open spec fn status_prefix() -> Seq<u8> {
    seq![13u8, 80u8, 114u8, 111u8, 103u8, 114u8, 101u8, 115u8, 115u8, 58u8, 32u8]
}

/// The whole status line: carriage return, `Progress: `, the percentage and `%`.
pub open spec fn status_text(read: nat, total: nat) -> Seq<u8> {
    status_prefix() + percent_text(read, total) + seq![37u8]
}

/// Counter of one transfer: bytes received so far against the declared total.
#[derive(Clone, Copy, Debug, PartialEq, Eq)]
pub struct TransferState {
    pub bytes_read: u64,
    pub total_size: u64,
}

impl TransferState {
    /// The counter after `n` more bytes arrived; it saturates at `u64::MAX`.
    pub open spec fn advanced(self, n: nat) -> TransferState {
        TransferState {
            bytes_read: if self.bytes_read + n > u64::MAX {
                u64::MAX
            } else {
                (self.bytes_read + n) as u64
            },
            total_size: self.total_size,
        }
    }

    pub fn new(total_size: u64) -> (r: TransferState)
        ensures
            r.bytes_read == 0,
            r.total_size == total_size,
    {
        TransferState { bytes_read: 0, total_size }
    }

    /// Adds `n` received bytes to the counter.
    pub fn record(&mut self, n: u64)
        ensures
            *final(self) == old(self).advanced(n as nat),
            final(self).bytes_read >= old(self).bytes_read,
    {
        self.bytes_read = self.bytes_read.saturating_add(n);
    }

    /// Progress in hundredths of a percent; `None` when the total is zero.
    pub fn hundredths(&self) -> (r: Option<u128>)
        ensures
            self.total_size == 0 <==> r is None,
            r matches Some(h) ==> h == hundredths_of(self.bytes_read as nat, self.total_size as nat),
    {
        if self.total_size == 0 {
            None
        } else {
            let read = self.bytes_read as u128;
            let total = self.total_size as u128;
            Some((20000 * read + total) / (2 * total))
        }
    }

    /// The status line for the current count, as bytes for the status sink.
    pub fn status_line(&self) -> (r: Vec<u8>)
        ensures
            r@ == status_text(self.bytes_read as nat, self.total_size as nat),
    {
        let mut out: Vec<u8> = vec![13u8, 80u8, 114u8, 111u8, 103u8, 114u8, 101u8, 115u8, 115u8, 58u8, 32u8];
        assert(out@ =~= status_prefix());
        match self.hundredths() {
            None => {
                if self.bytes_read == 0 {
                    out.push(78u8);
                    out.push(97u8);
                    out.push(78u8);
                } else {
                    out.push(105u8);
                    out.push(110u8);
                    out.push(102u8);
                }
            },
            Some(h) => {
                push_decimal(&mut out, h / 100);
                out.push(46u8);
                out.push((48 + (h / 10) % 10) as u8);
                out.push((48 + h % 10) as u8);
            },
        }
        out.push(37u8);
        assert(out@ =~= status_text(self.bytes_read as nat, self.total_size as nat));
        out
    }
}


/// A byte source together with the counter of what it has delivered. The
/// source is pulled by whoever drives the reader; each outcome of a pull is
/// handed to `account`, which alone moves the counter.
pub struct ProgressReader<R> {
    pub inner: R,
    pub state: TransferState,
}

impl<R> ProgressReader<R> {
    pub fn new(inner: R, total_size: u64) -> (r: ProgressReader<R>)
        ensures
            r.inner == inner,
            r.state.bytes_read == 0,
            r.state.total_size == total_size,
    {
        ProgressReader { inner, state: TransferState::new(total_size) }
    }

    /// Takes the outcome of one pull from the inner source and returns it
    /// unchanged, together with the status line to show. A success of `n`
    /// bytes advances the counter by `n`; a failure leaves it alone. A
    /// status line comes on every call, also for a pull of zero bytes.
    pub fn account<E>(&mut self, outcome: Result<usize, E>) -> (r: (Result<usize, E>, Vec<u8>))
        ensures
            r.0 == outcome,
            final(self).inner == old(self).inner,
            final(self).state == (match outcome {
                Ok(n) => old(self).state.advanced(n as nat),
                Err(_) => old(self).state,
            }),
            r.1@ == status_text(final(self).state.bytes_read as nat, final(self).state.total_size as nat),
    {
        match &outcome {
            Ok(n) => self.state.record(*n as u64),
            Err(_) => {},
        }
        let line = self.state.status_line();
        (outcome, line)
    }

    /// Bytes delivered so far.
    pub fn bytes_read(&self) -> (r: u64)
        ensures
            r == self.state.bytes_read,
    {
        self.state.bytes_read
    }

    /// The declared total.
    pub fn total_size(&self) -> (r: u64)
        ensures
            r == self.state.total_size,
    {
        self.state.total_size
    }

    /// Gives the inner source back.
    pub fn into_inner(self) -> (r: R)
        ensures
            r == self.inner,
    {
        self.inner
    }
}

/// Appends the decimal digits of `n` to `out`.
pub fn push_decimal(out: &mut Vec<u8>, n: u128)
    ensures
        final(out)@ == old(out)@ + decimal(n as nat),
    decreases n,
{
    if n < 10 {
        out.push((48 + n) as u8);
        assert(final(out)@ =~= old(out)@ + decimal(n as nat));
    } else {
        push_decimal(out, n / 10);
        out.push((48 + n % 10) as u8);
        assert(final(out)@ =~= old(out)@ + decimal(n as nat));
    }
}

/// More bytes never give a smaller percentage, for any positive total.
pub proof fn lemma_hundredths_monotone(a: nat, b: nat, total: nat)
    requires
        a <= b,
        total > 0,
    ensures
        hundredths_of(a, total) <= hundredths_of(b, total),
{
    lemma_div_is_ordered((20000 * a + total) as int, (20000 * b + total) as int, (2 * total) as int);
}

/// Every accounted read leaves the reported percentage where it was or
/// higher, whatever the sizes of the reads.
pub proof fn lemma_progress_never_falls(s: TransferState, n: nat)
    requires
        s.total_size > 0,
    ensures
        hundredths_of(s.bytes_read as nat, s.total_size as nat)
            <= hundredths_of(s.advanced(n).bytes_read as nat, s.advanced(n).total_size as nat),
{
    lemma_hundredths_monotone(s.bytes_read as nat, s.advanced(n).bytes_read as nat, s.total_size as nat);
}

/// Once exactly the declared total has arrived the percentage is 100.00.
pub proof fn lemma_complete_is_one_hundred(total: nat)
    requires
        total > 0,
    ensures
        hundredths_of(total, total) == 10000,
        percent_text(total, total) == seq![49u8, 48u8, 48u8, 46u8, 48u8, 48u8],
{
    lemma_fundamental_div_mod_converse((20000 * total + total) as int, (2 * total) as int, 10000, total as int);
    let h = hundredths_of(total, total);
    assert(h / 100 == 100);
    assert(decimal(100) =~= seq![49u8, 48u8, 48u8]) by {
        reveal_with_fuel(decimal, 3);
    }
    assert(percent_text(total, total) =~= seq![49u8, 48u8, 48u8, 46u8, 48u8, 48u8]);
}

/// Sum of a sequence of read sizes.
pub open spec fn total_of(chunks: Seq<nat>) -> nat
    decreases chunks.len(),
{
    if chunks.len() == 0 {
        0
    } else {
        total_of(chunks.drop_last()) + chunks.last()
    }
}

/// The counter after one accounted read of each size in `chunks`, in order.
pub open spec fn after_reads(s: TransferState, chunks: Seq<nat>) -> TransferState
    decreases chunks.len(),
{
    if chunks.len() == 0 {
        s
    } else {
        after_reads(s, chunks.drop_last()).advanced(chunks.last())
    }
}

/// Without saturation the counter holds exactly what the reads delivered,
/// and the total is never touched.
pub proof fn lemma_after_reads_counts(s: TransferState, chunks: Seq<nat>)
    requires
        s.bytes_read + total_of(chunks) <= u64::MAX,
    ensures
        after_reads(s, chunks).bytes_read == s.bytes_read + total_of(chunks),
        after_reads(s, chunks).total_size == s.total_size,
    decreases chunks.len(),
{
    if chunks.len() > 0 {
        lemma_after_reads_counts(s, chunks.drop_last());
    }
}

/// The counter never falls from one read to a later one.
pub proof fn lemma_after_reads_grow(s: TransferState, chunks: Seq<nat>, i: int, j: int)
    requires
        0 <= i <= j <= chunks.len(),
    ensures
        after_reads(s, chunks.take(i)).bytes_read <= after_reads(s, chunks.take(j)).bytes_read,
        after_reads(s, chunks.take(j)).total_size == s.total_size,
    decreases j,
{
    if j > 0 {
        assert(chunks.take(j).drop_last() =~= chunks.take(j - 1));
        if i < j {
            lemma_after_reads_grow(s, chunks, i, j - 1);
        } else {
            lemma_after_reads_grow(s, chunks, j - 1, j - 1);
        }
    }
}

/// Over any sequence of successful reads with a fixed positive total, the
/// percentage reported after a later read is never below the one reported
/// after an earlier read.
pub proof fn lemma_percentage_non_decreasing(s: TransferState, chunks: Seq<nat>, i: int, j: int)
    requires
        s.total_size > 0,
        0 <= i <= j <= chunks.len(),
    ensures
        hundredths_of(after_reads(s, chunks.take(i)).bytes_read as nat, s.total_size as nat)
            <= hundredths_of(after_reads(s, chunks.take(j)).bytes_read as nat, s.total_size as nat),
{
    lemma_after_reads_grow(s, chunks, i, j);
    lemma_hundredths_monotone(
        after_reads(s, chunks.take(i)).bytes_read as nat,
        after_reads(s, chunks.take(j)).bytes_read as nat,
        s.total_size as nat,
    );
}

/// A fresh counter whose declared total equals the bytes that the reads
/// deliver ends on exactly 100.00 percent.
pub proof fn lemma_exact_total_ends_at_one_hundred(total: u64, chunks: Seq<nat>)
    requires
        total > 0,
        total_of(chunks) == total,
    ensures
        after_reads(TransferState { bytes_read: 0, total_size: total }, chunks).bytes_read == total,
        hundredths_of(
            after_reads(TransferState { bytes_read: 0, total_size: total }, chunks).bytes_read as nat,
            total as nat,
        ) == 10000,
        status_text(
            after_reads(TransferState { bytes_read: 0, total_size: total }, chunks).bytes_read as nat,
            total as nat,
        ) == status_prefix() + seq![49u8, 48u8, 48u8, 46u8, 48u8, 48u8, 37u8],
{
    lemma_after_reads_counts(TransferState { bytes_read: 0, total_size: total }, chunks);
    lemma_complete_is_one_hundred(total as nat);
    assert(status_text(total as nat, total as nat) =~= status_prefix() + seq![49u8, 48u8, 48u8, 46u8, 48u8, 48u8, 37u8]);
}

} // verus!
