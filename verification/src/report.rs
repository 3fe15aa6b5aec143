//! Run statistics and the final summary line.
//!
//! A run accumulates one monotonically increasing success counter; when all
//! dispatched work has completed the counter and the elapsed wall-clock
//! time are rendered as the summary the tool prints.

use vstd::prelude::*;

verus! {

/// The statistics of one run: how many entries were successfully indexed.
///
/// The counter only ever increases, by one per recorded success; it is
/// never decremented or reset while a run is in flight.
#[derive(Clone, Copy, Debug, PartialEq, Eq, Structural)]
pub struct RunStats {
    pub indexed: u64,
}

impl RunStats {
    /// Statistics of a run that has indexed nothing yet.
    pub fn new() -> (s: RunStats)
        ensures
            s.indexed == 0,
    {
        RunStats { indexed: 0 }
    }

    /// Records one successful extraction.
    pub fn record_success(&mut self)
        requires
            old(self).indexed < u64::MAX,
        ensures
            final(self).indexed == old(self).indexed + 1,
    {
        self.indexed = self.indexed + 1;
    }
}

/// The decimal digit character of a value below ten.
pub open spec fn dec_digit(d: int) -> char {
    ((48 + d) as u8) as char
}

/// The decimal rendering of a number, most significant digit first.
pub open spec fn dec_chars(n: nat) -> Seq<char>
    decreases n,
{
    if n < 10 {
        seq![dec_digit(n as int)]
    } else {
        dec_chars(n / 10).push(dec_digit((n % 10) as int))
    }
}

/// Appends the decimal rendering of `n`.
pub fn push_dec(n: u64, out: &mut Vec<char>)
    ensures
        final(out)@ == old(out)@ + dec_chars(n as nat),
    decreases n,
{
    if n >= 10 {
        push_dec(n / 10, out);
    }
    let d = (n % 10) as u8 + 48;
    out.push(d as char);
    proof {
        assert(out@ =~= old(out)@ + dec_chars(n as nat));
    }
}

/// Appends the characters of a string slice.
pub fn push_str_chars(s: &str, out: &mut Vec<char>)
    ensures
        final(out)@ == old(out)@ + s@,
{
    let ghost orig = out@;
    let n = s.unicode_len();
    for i in 0..n
        invariant
            n == s@.len(),
            out@ == orig + s@.take(i as int),
    {
        out.push(s.get_char(i));
        proof {
            assert(s@.take(i + 1) =~= s@.take(i as int).push(s@[i as int]));
        }
    }
    proof {
        assert(orig + s@.take(n as int) =~= orig + s@);
    }
}

/// The summary the tool prints after a run.
pub open spec fn summary_chars(indexed: u64, elapsed_ms: u64) -> Seq<char> {
    "Successfully indexed "@ + dec_chars(indexed as nat) + " items in "@ + dec_chars(
        elapsed_ms as nat,
    ) + "ms"@
}

/// Renders the final summary line from the success count and the elapsed
/// milliseconds.
pub fn format_summary(indexed: u64, elapsed_ms: u64) -> (r: Vec<char>)
    ensures
        r@ == summary_chars(indexed, elapsed_ms),
{
    let mut out: Vec<char> = Vec::new();
    push_str_chars("Successfully indexed ", &mut out);
    push_dec(indexed, &mut out);
    push_str_chars(" items in ", &mut out);
    push_dec(elapsed_ms, &mut out);
    push_str_chars("ms", &mut out);
    proof {
        assert(out@ =~= summary_chars(indexed, elapsed_ms));
    }
    out
}

} // verus!
