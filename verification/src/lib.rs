//! A small compute service library: operation dispatch, numeric benchmark
//! planning, and a process-metrics registry with a plain-text rendering.

pub mod bench;
pub mod decimal;
pub mod ops;
pub mod registry;

use vstd::prelude::*;
use crate::registry::{spec_exposition, MetricsRegistry};

verus! {

/// The fixed JSON body returned by the health endpoint.
pub fn health_body() -> (r: String)
    ensures
        r@ == "{\"status\":\"healthy\",\"service\":\"rust-wasm-compute\"}"@,
{
    "{\"status\":\"healthy\",\"service\":\"rust-wasm-compute\"}".to_owned()
}

/// One step of the health route: every handled request counts, so the
/// request counter gains one; nothing else changes, and the body is the
/// same fixed payload whatever the registry held before.
pub fn handle_health(m: &mut MetricsRegistry) -> (r: String)
    ensures
        final(m).requests == (if old(m).requests == u64::MAX {
            u64::MAX as int
        } else {
            old(m).requests + 1
        }),
        final(m).requests >= old(m).requests,
        final(m).latency_count == old(m).latency_count,
        final(m).latency_sum_bits == old(m).latency_sum_bits,
        final(m).operations == old(m).operations,
        final(m).throughput_bits == old(m).throughput_bits,
        r@ == "{\"status\":\"healthy\",\"service\":\"rust-wasm-compute\"}"@,
{
    m.record_request();
    health_body()
}

/// One step of the metrics route: the request counter gains one (this
/// request is itself handled), every other instrument is untouched, and the
/// body is the exact exposition text of the registry as rendered, counting
/// this request.
pub fn handle_metrics(
    m: &mut MetricsRegistry,
    throughput_text: &str,
    latency_sum_text: &str,
) -> (r: String)
    ensures
        final(m).requests == (if old(m).requests == u64::MAX {
            u64::MAX as int
        } else {
            old(m).requests + 1
        }),
        final(m).requests >= old(m).requests,
        final(m).latency_count == old(m).latency_count,
        final(m).latency_sum_bits == old(m).latency_sum_bits,
        final(m).operations == old(m).operations,
        final(m).throughput_bits == old(m).throughput_bits,
        r@ == spec_exposition(*final(m), throughput_text@, latency_sum_text@),
{
    m.record_request();
    m.render(throughput_text, latency_sum_text)
}

} // verus!
