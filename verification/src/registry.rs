//! The process-wide metrics registry: a request counter, a request-latency
//! histogram, a compute-operations counter and a throughput gauge, together
//! with the plain-text exposition rendering served by the metrics endpoint.
//!
//! Counters hold exact integer counts and only ever grow (saturating at the
//! top of `u64`). The two float-valued instruments (the gauge and the
//! histogram sum) are stored as the bit pattern of their value: the registry
//! never computes with them, it only stores the last value written and hands
//! it back.

use vstd::prelude::*;
use crate::decimal::{append_u64, dec_str};
use vstd::string::StringExecFns;

verus! {

pub struct MetricsRegistry {
    /// How many requests have been handled.
    pub requests: u64,
    /// How many latency observations the histogram holds.
    pub latency_count: u64,
    /// Bit pattern of the sum of all observed latencies, in seconds.
    pub latency_sum_bits: u64,
    /// How many compute operations have run.
    pub operations: u64,
    /// Bit pattern of the throughput gauge (last writer wins).
    pub throughput_bits: u64,
}

impl MetricsRegistry {
    /// A fresh registry: every instrument at zero.
    pub fn new() -> (r: Self)
        ensures
            r.requests == 0,
            r.latency_count == 0,
            r.latency_sum_bits == 0,
            r.operations == 0,
            r.throughput_bits == 0,
    {
        MetricsRegistry {
            requests: 0,
            latency_count: 0,
            latency_sum_bits: 0,
            operations: 0,
            throughput_bits: 0,
        }
    }

    /// Counts one handled request. The request counter never decreases.
    pub fn record_request(&mut self)
        ensures
            final(self).requests == (if old(self).requests == u64::MAX {
                u64::MAX as int
            } else {
                old(self).requests + 1
            }),
            final(self).requests >= old(self).requests,
            final(self).latency_count == old(self).latency_count,
            final(self).latency_sum_bits == old(self).latency_sum_bits,
            final(self).operations == old(self).operations,
            final(self).throughput_bits == old(self).throughput_bits,
    {
        if self.requests < u64::MAX {
            self.requests = self.requests + 1;
        }
    }

    /// Records one latency observation: the histogram count grows by one and
    /// the stored sum is replaced by the caller's updated sum.
    pub fn observe_latency(&mut self, sum_bits: u64)
        ensures
            final(self).latency_count == (if old(self).latency_count == u64::MAX {
                u64::MAX as int
            } else {
                old(self).latency_count + 1
            }),
            final(self).latency_count >= old(self).latency_count,
            final(self).latency_sum_bits == sum_bits,
            final(self).requests == old(self).requests,
            final(self).operations == old(self).operations,
            final(self).throughput_bits == old(self).throughput_bits,
    {
        if self.latency_count < u64::MAX {
            self.latency_count = self.latency_count + 1;
        }
        self.latency_sum_bits = sum_bits;
    }

    /// Counts `n` finished compute operations. The operations counter never
    /// decreases.
    pub fn record_operations(&mut self, n: u32)
        ensures
            final(self).operations == (if old(self).operations + n <= u64::MAX {
                old(self).operations + n
            } else {
                u64::MAX as int
            }),
            final(self).operations >= old(self).operations,
            final(self).requests == old(self).requests,
            final(self).latency_count == old(self).latency_count,
            final(self).latency_sum_bits == old(self).latency_sum_bits,
            final(self).throughput_bits == old(self).throughput_bits,
    {
        if self.operations <= u64::MAX - n as u64 {
            self.operations = self.operations + n as u64;
        } else {
            self.operations = u64::MAX;
        }
    }

    /// Sets the throughput gauge to the given value; the previous value is
    /// forgotten (last writer wins).
    pub fn set_throughput_bits(&mut self, bits: u64)
        ensures
            final(self).throughput_bits == bits,
            final(self).requests == old(self).requests,
            final(self).latency_count == old(self).latency_count,
            final(self).latency_sum_bits == old(self).latency_sum_bits,
            final(self).operations == old(self).operations,
    {
        self.throughput_bits = bits;
    }
}

/// The exact exposition text for a registry state, given the textual
/// renderings of the two float-valued instruments. Families appear in name
/// order, each with its `# HELP` and `# TYPE` lines.
pub open spec fn spec_exposition(
    m: MetricsRegistry,
    throughput_text: Seq<char>,
    latency_sum_text: Seq<char>,
) -> Seq<char> {
    "# HELP rust_compute_operations_total Total compute operations\n# TYPE rust_compute_operations_total counter\nrust_compute_operations_total "@
        + dec_str(m.operations as nat)
        + "\n# HELP rust_compute_request_duration_seconds Request latency in seconds\n# TYPE rust_compute_request_duration_seconds histogram\nrust_compute_request_duration_seconds_bucket{le=\"+Inf\"} "@
        + dec_str(m.latency_count as nat) + "\nrust_compute_request_duration_seconds_sum "@
        + latency_sum_text + "\nrust_compute_request_duration_seconds_count "@ + dec_str(
        m.latency_count as nat,
    )
        + "\n# HELP rust_compute_requests_total Total number of requests\n# TYPE rust_compute_requests_total counter\nrust_compute_requests_total "@
        + dec_str(m.requests as nat)
        + "\n# HELP rust_compute_tokens_per_second Tokens per second\n# TYPE rust_compute_tokens_per_second gauge\nrust_compute_tokens_per_second "@
        + throughput_text + "\n"@
}

impl MetricsRegistry {
    /// Renders the registry in the plain-text exposition format. Rendering
    /// reads the instruments and changes nothing. The caller supplies the
    /// textual form of the gauge value and of the histogram sum, whose bit
    /// patterns it can read from the registry.
    pub fn render(&self, throughput_text: &str, latency_sum_text: &str) -> (r: String)
        ensures
            r@ == spec_exposition(*self, throughput_text@, latency_sum_text@),
    {
        let mut out =
            "# HELP rust_compute_operations_total Total compute operations\n# TYPE rust_compute_operations_total counter\nrust_compute_operations_total ".to_owned();
        append_u64(&mut out, self.operations);
        out.append(
            "\n# HELP rust_compute_request_duration_seconds Request latency in seconds\n# TYPE rust_compute_request_duration_seconds histogram\nrust_compute_request_duration_seconds_bucket{le=\"+Inf\"} ",
        );
        append_u64(&mut out, self.latency_count);
        out.append("\nrust_compute_request_duration_seconds_sum ");
        out.append(latency_sum_text);
        out.append("\nrust_compute_request_duration_seconds_count ");
        append_u64(&mut out, self.latency_count);
        out.append(
            "\n# HELP rust_compute_requests_total Total number of requests\n# TYPE rust_compute_requests_total counter\nrust_compute_requests_total ",
        );
        append_u64(&mut out, self.requests);
        out.append(
            "\n# HELP rust_compute_tokens_per_second Tokens per second\n# TYPE rust_compute_tokens_per_second gauge\nrust_compute_tokens_per_second ",
        );
        out.append(throughput_text);
        out.append("\n");
        proof {
            assert(out@ =~= spec_exposition(*self, throughput_text@, latency_sum_text@));
        }
        out
    }
}

} // verus!
