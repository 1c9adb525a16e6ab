//! The shape of one measurement run and what comes out of it.

use vstd::prelude::*;

verus! {

/// Nanoseconds in a second.
pub const NANOS_PER_SECOND: u128 = 1_000_000_000;

/// What the two peers agree to move in one run.
///
/// A run that moves nothing in either direction is allowed: it measures what
/// setting up the exchange costs.
#[derive(Clone, Copy, Debug, PartialEq, Eq, Structural)]
pub struct RunParameters {
    pub bytes_to_send: u64,
    pub bytes_to_receive: u64,
}

/// A completed run: what was agreed, and how long the exchange took.
///
/// The throughput is not kept here. It is derived when it is reported.
#[derive(Clone, Copy, Debug, PartialEq, Eq, Structural)]
pub struct RunOutcome {
    pub parameters: RunParameters,
    pub elapsed_nanos: u128,
}

impl RunParameters {
    /// The bytes that a run moves, both directions together.
    pub open spec fn spec_total_bytes(self) -> int {
        self.bytes_to_send + self.bytes_to_receive
    }

    /// A run that moves the same number of bytes in each direction.
    pub fn symmetric(payload_bytes: u64) -> (parameters: RunParameters)
        ensures
            parameters.bytes_to_send == payload_bytes,
            parameters.bytes_to_receive == payload_bytes,
    {
        RunParameters { bytes_to_send: payload_bytes, bytes_to_receive: payload_bytes }
    }

    /// The bytes that a run moves, both directions together.
    pub fn total_bytes(&self) -> (total: u128)
        ensures
            total == self.spec_total_bytes(),
    {
        self.bytes_to_send as u128 + self.bytes_to_receive as u128
    }
}

impl RunOutcome {
    /// Bytes moved per second of elapsed time, rounded down. It has no value
    /// for a run that took no time.
    pub open spec fn spec_throughput(self) -> Option<int> {
        if self.elapsed_nanos == 0 {
            None
        } else {
            Some(
                self.parameters.spec_total_bytes() * (NANOS_PER_SECOND as int) / (
                self.elapsed_nanos as int),
            )
        }
    }

    /// Bytes moved per second of elapsed time, rounded down, or nothing for a
    /// run that took no time.
    pub fn throughput(&self) -> (rate: Option<u128>)
        ensures
            match rate {
                Some(bytes_per_second) => self.spec_throughput() == Some(bytes_per_second as int),
                None => self.spec_throughput() is None,
            },
    {
        if self.elapsed_nanos == 0 {
            return None;
        }
        let total = self.parameters.total_bytes();
        assert(total * NANOS_PER_SECOND <= 0x2_0000_0000_0000_0000 * 1_000_000_000)
            by (nonlinear_arith)
            requires
                total <= 0x2_0000_0000_0000_0000,
                NANOS_PER_SECOND == 1_000_000_000,
        ;
        let scaled = total * NANOS_PER_SECOND;
        Some(scaled / self.elapsed_nanos)
    }
}

/// The reported rate is the largest whole number of bytes per second that the
/// run reached: that many bytes per second for the elapsed time is no more
/// than what was moved, and one more per second would be.
pub proof fn lemma_throughput_is_floor(outcome: RunOutcome)
    requires
        outcome.elapsed_nanos > 0,
    ensures
        outcome.spec_throughput() is Some,
        0 <= outcome.spec_throughput()->Some_0,
        outcome.spec_throughput()->Some_0 * outcome.elapsed_nanos
            <= outcome.parameters.spec_total_bytes() * NANOS_PER_SECOND,
        outcome.parameters.spec_total_bytes() * NANOS_PER_SECOND < (
        outcome.spec_throughput()->Some_0 + 1) * outcome.elapsed_nanos,
{
    let scaled = outcome.parameters.spec_total_bytes() * (NANOS_PER_SECOND as int);
    let nanos = outcome.elapsed_nanos as int;
    assert(0 <= scaled) by (nonlinear_arith)
        requires
            scaled == outcome.parameters.spec_total_bytes() * (NANOS_PER_SECOND as int),
            0 <= outcome.parameters.spec_total_bytes(),
            0 <= NANOS_PER_SECOND as int,
    ;
    assert(0 <= scaled / nanos && (scaled / nanos) * nanos <= scaled && scaled < (scaled / nanos
        + 1) * nanos) by (nonlinear_arith)
        requires
            0 <= scaled,
            0 < nanos,
    ;
}

/// A run that lasts a whole number of seconds and moves a whole multiple of
/// that number of bytes reports the quotient exactly.
pub proof fn lemma_throughput_of_whole_seconds(outcome: RunOutcome, seconds: int, rate: int)
    requires
        seconds > 0,
        rate >= 0,
        outcome.elapsed_nanos == seconds * NANOS_PER_SECOND,
        outcome.parameters.spec_total_bytes() == rate * seconds,
    ensures
        outcome.spec_throughput() == Some(rate),
{
    let nanos = outcome.elapsed_nanos as int;
    let scaled = outcome.parameters.spec_total_bytes() * (NANOS_PER_SECOND as int);
    assert(scaled == rate * nanos) by (nonlinear_arith)
        requires
            scaled == (rate * seconds) * (NANOS_PER_SECOND as int),
            nanos == seconds * (NANOS_PER_SECOND as int),
    ;
    assert(nanos > 0) by (nonlinear_arith)
        requires
            nanos == seconds * (NANOS_PER_SECOND as int),
            seconds > 0,
            NANOS_PER_SECOND as int == 1_000_000_000,
    ;
    assert((rate * nanos) / nanos == rate) by (nonlinear_arith)
        requires
            nanos > 0,
    ;
}

} // verus!
