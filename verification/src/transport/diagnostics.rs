//! Bandwidth diagnostics: sampling the traffic counters into rates.
//!
//! A sampler runs at a fixed cadence, not every tick. Each sample reads what
//! the counters gathered since the previous one, divides by the time that
//! passed, and sets the counters back to zero.
use vstd::prelude::*;

use crate::transport::stats::IoStats;
use crate::transport::stats::Totals;

verus! {

/// Nanoseconds in one second.
pub const NANOS_PER_SECOND: u128 = 1_000_000_000;

/// What `count` events in `elapsed_nanos` nanoseconds come to per second,
/// rounded down to a whole number.
pub open spec fn per_second(count: nat, elapsed_nanos: nat) -> nat {
    (count * NANOS_PER_SECOND as nat) / elapsed_nanos
}

/// Four rates, each per second and rounded down to a whole number.
#[derive(Clone, Copy, Debug, PartialEq, Eq, Structural)]
pub struct IoRates {
    pub bytes_in: u128,
    pub bytes_out: u128,
    pub packets_in: u128,
    pub packets_out: u128,
}

/// One sample of the traffic counters: the traffic since the previous sample,
/// and the time it took, which is never zero.
#[derive(Clone, Copy, Debug)]
pub struct IoSample {
    traffic: IoStats,
    elapsed_nanos: u128,
}

impl IoSample {
    #[verifier::type_invariant]
    spec fn time_passed(self) -> bool {
        self.elapsed_nanos > 0
    }

    /// The traffic since the previous sample.
    pub closed spec fn spec_traffic(&self) -> IoStats {
        self.traffic
    }

    /// The nanoseconds since the previous sample.
    pub closed spec fn spec_elapsed_nanos(&self) -> u128 {
        self.elapsed_nanos
    }

    /// The rates this sample comes to.
    pub open spec fn spec_rates(&self) -> IoRates {
        let traffic = self.spec_traffic()@;
        let elapsed = self.spec_elapsed_nanos() as nat;
        IoRates {
            bytes_in: per_second(traffic.bytes_received, elapsed) as u128,
            bytes_out: per_second(traffic.bytes_sent, elapsed) as u128,
            packets_in: per_second(traffic.packets_received, elapsed) as u128,
            packets_out: per_second(traffic.packets_sent, elapsed) as u128,
        }
    }

    /// The traffic since the previous sample.
    pub fn traffic(&self) -> (traffic: IoStats)
        ensures
            traffic == self.spec_traffic(),
    {
        self.traffic
    }

    /// The nanoseconds since the previous sample: never zero.
    pub fn elapsed_nanos(&self) -> (elapsed: u128)
        ensures
            elapsed == self.spec_elapsed_nanos(),
            elapsed > 0,
    {
        proof {
            use_type_invariant(self);
        }
        self.elapsed_nanos
    }

    /// The rates this sample comes to: bytes and packets, in and out, per
    /// second. None of them is cut short: each fits its `u128`.
    pub fn rates(&self) -> (rates: IoRates)
        ensures
            rates == self.spec_rates(),
            ({
                let traffic = self.spec_traffic()@;
                let elapsed = self.spec_elapsed_nanos() as nat;
                &&& rates.bytes_in == per_second(traffic.bytes_received, elapsed)
                &&& rates.bytes_out == per_second(traffic.bytes_sent, elapsed)
                &&& rates.packets_in == per_second(traffic.packets_received, elapsed)
                &&& rates.packets_out == per_second(traffic.packets_sent, elapsed)
            }),
    {
        proof {
            use_type_invariant(self);
        }
        IoRates {
            bytes_in: rate(self.traffic.bytes_received, self.elapsed_nanos),
            bytes_out: rate(self.traffic.bytes_sent, self.elapsed_nanos),
            packets_in: rate(self.traffic.packets_received, self.elapsed_nanos),
            packets_out: rate(self.traffic.packets_sent, self.elapsed_nanos),
        }
    }
}

/// What `count` events in `elapsed_nanos` nanoseconds come to per second.
fn rate(count: usize, elapsed_nanos: u128) -> (rate: u128)
    requires
        elapsed_nanos > 0,
    ensures
        rate == per_second(count as nat, elapsed_nanos as nat),
{
    let scaled: u128 = (count as u128) * NANOS_PER_SECOND;
    scaled / elapsed_nanos
}

/// Samples the traffic counters of an io into rates, for a telemetry collector.
pub struct IoDiagnosticsPlugin;

impl IoDiagnosticsPlugin {
    /// Max diagnostic history length: how many samples of each rate are kept
    /// before the oldest is evicted.
    pub const DIAGNOSTIC_HISTORY_LEN: usize = 60;

    /// What one run of the sampler does, after `elapsed_nanos` nanoseconds, to
    /// counters that hold `stats`: the counters afterwards, and the sample taken.
    ///
    /// When no time has passed there is no rate to compute: no sample is taken
    /// and the counters are left alone.
    pub closed spec fn sampled(stats: IoStats, elapsed_nanos: u128) -> (IoStats, Option<IoSample>) {
        if elapsed_nanos == 0 {
            (stats, None)
        } else {
            (
                IoStats { bytes_sent: 0, bytes_received: 0, packets_sent: 0, packets_received: 0 },
                Some(IoSample { traffic: stats, elapsed_nanos }),
            )
        }
    }

    /// Takes one sample: the traffic that `stats` gathered over the last
    /// `elapsed_nanos` nanoseconds, after which `stats` starts again from zero.
    ///
    /// When no time has passed, nothing is sampled and `stats` is left alone.
    pub fn update_diagnostics(stats: &mut IoStats, elapsed_nanos: u128) -> (sample: Option<
        IoSample,
    >)
        ensures
            (*final(stats), sample) == Self::sampled(*old(stats), elapsed_nanos),
            elapsed_nanos == 0 ==> sample is None && *final(stats) == *old(stats),
            elapsed_nanos != 0 ==> {
                &&& final(stats)@ == Totals::zero()
                &&& sample matches Some(s)
                &&& s.spec_traffic() == *old(stats)
                &&& s.spec_elapsed_nanos() == elapsed_nanos
            },
    {
        if elapsed_nanos == 0 {
            return None;
        }
        let traffic = stats.take();
        Some(IoSample { traffic, elapsed_nanos })
    }

    /// Two samples in a row: when no traffic passed between them, every rate of
    /// the second one is zero, whatever the first one saw.
    pub proof fn lemma_second_sample_is_zero(stats: IoStats, first_nanos: u128, second_nanos: u128)
        requires
            first_nanos != 0,
            second_nanos != 0,
        ensures
            ({
                let (after_first, _) = Self::sampled(stats, first_nanos);
                let (after_second, second) = Self::sampled(after_first, second_nanos);
                &&& second matches Some(sample)
                &&& sample.spec_rates() == (IoRates {
                    bytes_in: 0,
                    bytes_out: 0,
                    packets_in: 0,
                    packets_out: 0,
                })
                &&& after_second@ == Totals::zero()
            }),
    {
        assert(per_second(0, second_nanos as nat) == 0) by (nonlinear_arith)
            requires
                second_nanos > 0,
        ;
    }
}

} // verus!
